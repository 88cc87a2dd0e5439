use orchardpay::orchardpay::messages::{trim_ambiguous_tail, MessageDocument};

fn doc_with_created_at(id_byte: u8, created_at: u64) -> MessageDocument {
    MessageDocument {
        id: [id_byte; 32],
        owner_id: [0xAAu8; 32],
        created_at: Some(created_at),
        updated_at: None,
        msg_data: None,
    }
}

fn created_ats(documents: &[MessageDocument]) -> Vec<u64> {
    documents.iter().filter_map(|d| d.created_at).collect()
}

/// Every document has a distinct timestamp — no *visible* tie at all.
/// The trailing (minimum-timestamp) document must still be deferred:
/// its apparent uniqueness in this page proves nothing about whether an
/// identically-timestamped sibling exists just past the limit cutoff, a
/// single page's data can't tell those two situations apart.
#[test]
fn trim_ambiguous_tail_defers_the_last_item_even_with_no_visible_tie() {
    let mut documents: Vec<MessageDocument> = (0..5)
        .map(|i| doc_with_created_at(i, 1_000 - u64::from(i)))
        .collect();

    let (cursor, may_be_incomplete) = trim_ambiguous_tail(&mut documents, true);

    assert_eq!(
        created_ats(&documents),
        vec![1_000, 999, 998, 997],
        "the trailing document (996) must be deferred, not just documents with a visible tie"
    );
    assert_eq!(
        cursor,
        Some(997),
        "cursor must be the last kept document's timestamp"
    );
    assert!(
        !may_be_incomplete,
        "a normal trim isn't the pathological fallback"
    );
}

/// A tie at the very end of a full page — the exact bug scenario: the
/// last two documents share the batch's minimum timestamp. Both must be
/// trimmed (held back for the next page), and the cursor must point at
/// the distinct timestamp just above them, not at the tied value
/// itself — using the tied value itself would exclude the trimmed
/// documents from ever being re-fetched.
#[test]
fn trim_ambiguous_tail_trims_a_boundary_tie_and_holds_it_back() {
    let mut documents = vec![
        doc_with_created_at(1, 1_000),
        doc_with_created_at(2, 999),
        doc_with_created_at(3, 998),
        doc_with_created_at(4, 997), // tied with #5 below
        doc_with_created_at(5, 997), // tied with #4 above
    ];

    let (cursor, may_be_incomplete) = trim_ambiguous_tail(&mut documents, true);

    assert_eq!(
        created_ats(&documents),
        vec![1_000, 999, 998],
        "both documents sharing the trailing timestamp must be trimmed"
    );
    assert_eq!(
        cursor,
        Some(998),
        "cursor must be the last kept document's timestamp, not the trimmed tie's"
    );
    assert!(
        !may_be_incomplete,
        "a normal trim isn't the pathological fallback"
    );
}

/// A tie earlier in the page, away from the boundary, is guaranteed
/// complete (the limit can only cut a run short if it's the *last* one
/// in the batch) and must be left untouched — but the trailing
/// document, even though it's a singleton with no visible tie of its
/// own, still gets deferred (same reasoning as the no-visible-tie test
/// above).
#[test]
fn trim_ambiguous_tail_leaves_a_non_boundary_tie_alone() {
    let mut documents = vec![
        doc_with_created_at(1, 1_000),
        doc_with_created_at(2, 999), // tied with #3 — not the trailing run, must survive
        doc_with_created_at(3, 999),
        doc_with_created_at(4, 998), // the lone trailing document — must be deferred
    ];

    let (cursor, may_be_incomplete) = trim_ambiguous_tail(&mut documents, true);

    assert_eq!(
        created_ats(&documents),
        vec![1_000, 999, 999],
        "the non-boundary tie (999, 999) must survive untouched; only the trailing \
         singleton (998) is deferred"
    );
    assert_eq!(cursor, Some(999));
    assert!(
        !may_be_incomplete,
        "a normal trim isn't the pathological fallback"
    );
}

/// Pathological fallback: every document in a full page shares the same
/// timestamp, so there's no safe boundary to trim to. Falls back to the
/// pre-fix behavior (accept the loss risk, don't stall pagination)
/// rather than emptying the page or leaving the cursor unable to
/// progress.
#[test]
fn trim_ambiguous_tail_falls_back_when_the_entire_page_is_tied() {
    let mut documents: Vec<MessageDocument> = (0..5).map(|i| doc_with_created_at(i, 1_000)).collect();

    let (cursor, may_be_incomplete) = trim_ambiguous_tail(&mut documents, true);

    assert_eq!(
        created_ats(&documents),
        vec![1_000, 1_000, 1_000, 1_000, 1_000],
        "nothing can be safely trimmed, so the full page is kept as-is"
    );
    assert_eq!(cursor, Some(1_000));
    assert!(
        may_be_incomplete,
        "the pathological fallback must report itself so the UI can surface a notice"
    );
}

/// A non-full page (`has_more = false`) means nothing was cut off by
/// the query limit, so there's no ambiguity to resolve even if the
/// trailing entries happen to share a timestamp — no trimming.
#[test]
fn trim_ambiguous_tail_no_op_when_page_is_not_full() {
    let mut documents = vec![
        doc_with_created_at(1, 1_000),
        doc_with_created_at(2, 999),
        doc_with_created_at(3, 999),
    ];

    let (cursor, may_be_incomplete) = trim_ambiguous_tail(&mut documents, false);

    assert_eq!(
        created_ats(&documents),
        vec![1_000, 999, 999],
        "an already-complete last page must never be trimmed"
    );
    assert_eq!(cursor, Some(999));
    assert!(!may_be_incomplete);
}
