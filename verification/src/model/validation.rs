//! Limits on texts and amounts, and the removal of characters that can make a
//! text look like something else.

use vstd::prelude::*;
use vstd::string::StrSliceExecFns;
use vstd::string::StringExecFns;

use crate::model::text;

verus! {

/// A text is outside its permitted range of characters.
#[derive(Debug, Clone, Copy, PartialEq, Eq, Structural)]
pub struct TextLengthError {
    /// How many characters it has.
    pub actual: usize,
    /// How many it must have at least.
    pub min: usize,
    /// How many it may have at most.
    pub max: usize,
}

impl TextLengthError {
    /// The error in words.
    pub open spec fn spec_message(self) -> Seq<char> {
        "text contains "@ + text::decimal(self.actual as nat) + " characters; expected between "@
            + text::decimal(self.min as nat) + " and "@ + text::decimal(self.max as nat)
    }

    /// The error in words.
    pub fn message(&self) -> (message: String)
        ensures
            message@ == self.spec_message(),
    {
        let mut message: String = text::joined3(
            "text contains ",
            text::decimal_text(self.actual as u64).as_str(),
            " characters; expected between ",
        );
        message.append(text::decimal_text(self.min as u64).as_str());
        message.append(" and ");
        message.append(text::decimal_text(self.max as u64).as_str());
        message
    }
}

/// `r` says whether a text keeps these limits.
pub open spec fn within_limits(
    value: Seq<char>,
    min: usize,
    max: usize,
    r: Result<(), TextLengthError>,
) -> bool {
    match r {
        Ok(()) => min <= value.len() <= max,
        Err(e) => !(min <= value.len() <= max) && e.actual == value.len() && e.min == min && e.max
            == max,
    }
}

/// Checks that a text has between `min` and `max` characters.
pub fn validate_char_count(value: &str, min: usize, max: usize) -> (r: Result<
    (),
    TextLengthError,
>)
    ensures
        within_limits(value@, min, max, r),
{
    let actual: usize = value.unicode_len();
    if min <= actual && actual <= max {
        Ok(())
    } else {
        Err(TextLengthError { actual, min, max })
    }
}

/// An amount of credits is below its minimum.
#[derive(Debug, Clone, Copy, PartialEq, Eq, Structural)]
pub struct AmountTooLowError {
    /// The amount, in credits.
    pub actual: u64,
    /// The least amount permitted, in credits.
    pub minimum: u64,
}

impl AmountTooLowError {
    /// The error in words.
    pub open spec fn spec_message(self) -> Seq<char> {
        "amount is "@ + text::decimal(self.actual as nat) + " credits; minimum is "@
            + text::decimal(self.minimum as nat) + " credits"@
    }

    /// The error in words.
    pub fn message(&self) -> (message: String)
        ensures
            message@ == self.spec_message(),
    {
        let mut message: String = text::joined3(
            "amount is ",
            text::decimal_text(self.actual).as_str(),
            " credits; minimum is ",
        );
        message.append(text::decimal_text(self.minimum).as_str());
        message.append(" credits");
        message
    }
}

/// Whether an amount is at least `minimum`, or by what it is too low.
pub open spec fn enough(value: u64, minimum: u64) -> Result<(), AmountTooLowError> {
    if value >= minimum {
        Ok(())
    } else {
        Err(AmountTooLowError { actual: value, minimum })
    }
}

/// Checks that an amount is at least `minimum`.
pub fn validate_min_amount(value: u64, minimum: u64) -> (r: Result<(), AmountTooLowError>)
    ensures
        r == enough(value, minimum),
{
    if value >= minimum {
        Ok(())
    } else {
        Err(AmountTooLowError { actual: value, minimum })
    }
}

/// A character that overrides or isolates the direction of text.
pub open spec fn bidi_control(c: char) -> bool {
    ||| c as u32 == 0x061c
    ||| 0x200e <= c as u32 <= 0x200f
    ||| 0x202a <= c as u32 <= 0x202e
    ||| 0x2066 <= c as u32 <= 0x2069
}

/// A joiner, non-joiner, space or byte-order mark without width.
pub open spec fn zero_width(c: char) -> bool {
    0x200b <= c as u32 <= 0x200d || c as u32 == 0xfeff
}

/// A control code of the C0 or C1 range.
pub open spec fn control_code(c: char) -> bool {
    c as u32 <= 0x1f || 0x7f <= c as u32 <= 0x9f
}

/// A character that can change how a text looks without being seen itself.
pub open spec fn unsafe_to_display(c: char) -> bool {
    control_code(c) || bidi_control(c) || zero_width(c)
}

/// Whether the character overrides or isolates the direction of text.
pub fn is_bidi_control(character: char) -> (r: bool)
    ensures
        r == bidi_control(character),
{
    let code: u32 = character as u32;
    code == 0x061c || (0x200e <= code && code <= 0x200f) || (0x202a <= code && code <= 0x202e) || (
    0x2066 <= code && code <= 0x2069)
}

/// Whether the character has no width.
pub fn is_zero_width(character: char) -> (r: bool)
    ensures
        r == zero_width(character),
{
    let code: u32 = character as u32;
    (0x200b <= code && code <= 0x200d) || code == 0xfeff
}

/// Whether the character is a control code.
pub fn is_control_code(character: char) -> (r: bool)
    ensures
        r == control_code(character),
{
    let code: u32 = character as u32;
    code <= 0x1f || (0x7f <= code && code <= 0x9f)
}

/// The characters of `text` that are safe to display.
pub open spec fn stripped(text: Seq<char>) -> Seq<char> {
    text.filter(|c: char| !unsafe_to_display(c))
}

/// The characters of `text` that are safe to display, and its line breaks.
pub open spec fn stripped_lines(text: Seq<char>) -> Seq<char> {
    text.filter(|c: char| c == '\n' || !unsafe_to_display(c))
}

/// Removes control codes, direction overrides and characters without width, and
/// nothing else.
pub fn strip_unsafe_display_characters(text: &str) -> (safe: String)
    ensures
        safe@ == stripped(text@),
{
    let mut safe: String = String::new();
    let ghost all = text@;
    assert(all.take(0) =~= Seq::empty());
    proof {
        reveal(Seq::filter);
    }
    for c in iter: text.chars()
        invariant
            iter.seq() == all,
            safe@ == stripped(all.take(iter.index() as int)),
    {
        proof {
            reveal(Seq::filter);
            let i = iter.index() as int;
            assert(all.take(i + 1).drop_last() =~= all.take(i));
        }
        if !is_control_code(c) && !is_bidi_control(c) && !is_zero_width(c) {
            safe.push(c);
        }
    }
    assert(all.take(all.len() as int) =~= all);
    safe
}

/// As [`strip_unsafe_display_characters`], but line breaks stay.
pub fn strip_unsafe_display_characters_allow_newlines(text: &str) -> (safe: String)
    ensures
        safe@ == stripped_lines(text@),
{
    let mut safe: String = String::new();
    let ghost all = text@;
    assert(all.take(0) =~= Seq::empty());
    proof {
        reveal(Seq::filter);
    }
    for c in iter: text.chars()
        invariant
            iter.seq() == all,
            safe@ == stripped_lines(all.take(iter.index() as int)),
    {
        proof {
            reveal(Seq::filter);
            let i = iter.index() as int;
            assert(all.take(i + 1).drop_last() =~= all.take(i));
        }
        if c == '\n' || (!is_control_code(c) && !is_bidi_control(c) && !is_zero_width(c)) {
            safe.push(c);
        }
    }
    assert(all.take(all.len() as int) =~= all);
    safe
}

proof fn lemma_filter_all<T>(s: Seq<T>, p: spec_fn(T) -> bool)
    requires
        forall|i: int| 0 <= i < s.len() ==> p(#[trigger] s[i]),
    ensures
        s.filter(p) == s,
    decreases s.len(),
{
    reveal(Seq::filter);
    if s.len() > 0 {
        lemma_filter_all(s.drop_last(), p);
        assert(s.drop_last().push(s.last()) =~= s);
    }
}

/// A text without unsafe characters is left as it is.
pub proof fn stripping_keeps_safe_text(text: Seq<char>)
    requires
        forall|i: int| 0 <= i < text.len() ==> !unsafe_to_display(#[trigger] text[i]),
    ensures
        stripped(text) == text,
{
    lemma_filter_all(text, |c: char| !unsafe_to_display(c));
}

/// A stripped text holds no unsafe character and is not longer than before;
/// stripping it again changes nothing.
pub proof fn stripping_is_complete(text: Seq<char>)
    ensures
        forall|i: int|
            0 <= i < stripped(text).len() ==> !unsafe_to_display(#[trigger] stripped(text)[i]),
        stripped(text).len() <= text.len(),
        stripped(stripped(text)) == stripped(text),
{
    let p = |c: char| !unsafe_to_display(c);
    assert forall|i: int| 0 <= i < stripped(text).len() implies !unsafe_to_display(
        #[trigger] stripped(text)[i],
    ) by {
        text.lemma_filter_pred(p, i);
    }
    text.lemma_filter_len(p);
    stripping_keeps_safe_text(stripped(text));
}

/// Which characters are unsafe to display: the control codes, what turns or isolates
/// the direction of text, and what has no width. Every other character is safe,
/// whatever script it belongs to.
pub proof fn only_these_are_unsafe(c: char)
    ensures
        unsafe_to_display(c) <==> {
            ||| c < '\u{20}'
            ||| '\u{7f}' <= c <= '\u{9f}'
            ||| c == '\u{61c}'
            ||| '\u{200b}' <= c <= '\u{200f}'
            ||| '\u{202a}' <= c <= '\u{202e}'
            ||| '\u{2066}' <= c <= '\u{2069}'
            ||| c == '\u{feff}'
        },
{
}

/// Stripping goes character by character: a safe one stays, an unsafe one goes, and
/// what stands around it does not matter.
pub proof fn stripping_goes_by_character(before: Seq<char>, c: char, after: Seq<char>)
    ensures
        stripped(before + seq![c] + after) == stripped(before) + (if unsafe_to_display(c) {
            Seq::empty()
        } else {
            seq![c]
        }) + stripped(after),
        stripped(Seq::empty()) == Seq::<char>::empty(),
{
    let p = |d: char| !unsafe_to_display(d);
    lemma_filter_parts(before + seq![c], after, p);
    lemma_filter_parts(before, seq![c], p);
    lemma_filter_one(c, p);
    reveal(Seq::filter);
    assert(stripped(Seq::empty()) =~= Seq::<char>::empty());
}

/// The same for the stripping that keeps line breaks.
pub proof fn line_stripping_goes_by_character(before: Seq<char>, c: char, after: Seq<char>)
    ensures
        stripped_lines(before + seq![c] + after) == stripped_lines(before) + (if c != '\n'
            && unsafe_to_display(c) {
            Seq::empty()
        } else {
            seq![c]
        }) + stripped_lines(after),
        stripped_lines(Seq::empty()) == Seq::<char>::empty(),
{
    let p = |d: char| d == '\n' || !unsafe_to_display(d);
    lemma_filter_parts(before + seq![c], after, p);
    lemma_filter_parts(before, seq![c], p);
    lemma_filter_one(c, p);
    reveal(Seq::filter);
    assert(stripped_lines(Seq::empty()) =~= Seq::<char>::empty());
}

proof fn lemma_filter_one<T>(x: T, p: spec_fn(T) -> bool)
    ensures
        seq![x].filter(p) == if p(x) {
            seq![x]
        } else {
            Seq::empty()
        },
{
    reveal(Seq::filter);
    assert(seq![x].drop_last() =~= Seq::<T>::empty());
    assert(Seq::<T>::empty().filter(p) =~= Seq::<T>::empty());
    assert(Seq::<T>::empty().push(x) =~= seq![x]);
}

proof fn lemma_filter_parts<T>(a: Seq<T>, b: Seq<T>, p: spec_fn(T) -> bool)
    ensures
        (a + b).filter(p) == a.filter(p) + b.filter(p),
    decreases b.len(),
{
    reveal(Seq::filter);
    if b.len() == 0 {
        assert(a + b =~= a);
        assert(b.filter(p) =~= Seq::<T>::empty());
        assert(a.filter(p) + b.filter(p) =~= a.filter(p));
    } else {
        lemma_filter_parts(a, b.drop_last(), p);
        assert((a + b).drop_last() =~= a + b.drop_last());
        assert((a + b).last() == b.last());
        if p(b.last()) {
            assert((a.filter(p) + b.drop_last().filter(p)).push(b.last()) =~= a.filter(p)
                + b.drop_last().filter(p).push(b.last()));
        }
    }
}

/// A text of line breaks and safe characters is left as it is by the stripping that
/// keeps line breaks.
pub proof fn line_stripping_keeps_safe_text(text: Seq<char>)
    requires
        forall|i: int|
            0 <= i < text.len() ==> #[trigger] text[i] == '\n' || !unsafe_to_display(text[i]),
    ensures
        stripped_lines(text) == text,
{
    lemma_filter_all(text, |c: char| c == '\n' || !unsafe_to_display(c));
}

/// What the stripping that keeps line breaks leaves holds no unsafe character but
/// line breaks, is not longer than before, and is left as it is by stripping again.
pub proof fn line_stripping_is_complete(text: Seq<char>)
    ensures
        forall|i: int|
            0 <= i < stripped_lines(text).len() ==> #[trigger] stripped_lines(text)[i] == '\n'
                || !unsafe_to_display(stripped_lines(text)[i]),
        stripped_lines(text).len() <= text.len(),
        stripped_lines(stripped_lines(text)) == stripped_lines(text),
{
    let p = |c: char| c == '\n' || !unsafe_to_display(c);
    assert forall|i: int| 0 <= i < stripped_lines(text).len() implies #[trigger] stripped_lines(
        text,
    )[i] == '\n' || !unsafe_to_display(stripped_lines(text)[i]) by {
        text.lemma_filter_pred(p, i);
    }
    text.lemma_filter_len(p);
    line_stripping_keeps_safe_text(stripped_lines(text));
}

/// A text is accepted with no fewer characters than the least and no more than the
/// most, both included; a refusal names its length and both limits.
pub proof fn texts_keep_their_limits(
    value: Seq<char>,
    min: usize,
    max: usize,
    r: Result<(), TextLengthError>,
)
    requires
        within_limits(value, min, max, r),
    ensures
        r is Err <==> value.len() < min || value.len() > max,
        r matches Err(e) ==> e.actual == value.len() && e.min == min && e.max == max,
{
}

/// An amount is accepted from the minimum on; a refusal names the amount and the
/// minimum.
pub proof fn amounts_reach_their_minimum(value: u64, minimum: u64)
    ensures
        enough(minimum, minimum) is Ok,
        enough(value, minimum) is Err <==> value < minimum,
        enough(value, minimum) matches Err(e) ==> e.actual == value && e.minimum == minimum,
{
}

/// The words of a refusal carry its numbers, each in its place.
pub proof fn refusals_name_their_numbers(actual: usize, min: usize, max: usize, paid: u64, least: u64)
    ensures
        (TextLengthError { actual, min, max }).spec_message() == "text contains "@ + text::decimal(
            actual as nat,
        ) + " characters; expected between "@ + text::decimal(min as nat) + " and "@
            + text::decimal(max as nat),
        (AmountTooLowError { actual: paid, minimum: least }).spec_message() == "amount is "@
            + text::decimal(paid as nat) + " credits; minimum is "@ + text::decimal(least as nat)
            + " credits"@,
{
}

} // verus!
