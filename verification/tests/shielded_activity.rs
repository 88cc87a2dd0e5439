use orchardpay::model::orchardpay::{
    group_shielded_activity, ShieldedActivityRow, ShieldedActivityView, ShieldedNoteKind, SpentEntry,
};

fn row(kind: ShieldedNoteKind, amount_credits: u64, block_height: u64) -> ShieldedActivityRow {
    ShieldedActivityRow {
        kind,
        amount_credits,
        memo_label: "No memo".to_string(),
        block_height: Some(block_height),
        pending: false,
    }
}

#[test]
fn empty_input_yields_empty_view() {
    let view = group_shielded_activity(Vec::new());
    assert_eq!(view, ShieldedActivityView::default());
}

#[test]
fn unspent_received_notes_go_to_unspent_section() {
    let a = row(ShieldedNoteKind::Received { spent: false }, 100, 10);
    let b = row(ShieldedNoteKind::Received { spent: false }, 200, 20);
    let view = group_shielded_activity(vec![a.clone(), b.clone()]);
    assert_eq!(view.unspent, vec![b, a]); // most recent (higher block) first
    assert_eq!(view.unspent_count, 2);
    assert_eq!(view.unspent_total_credits, 300);
    assert!(view.spent.is_empty());
}

#[test]
fn spent_note_pairs_with_same_amount_send() {
    let spent = row(ShieldedNoteKind::Received { spent: true }, 100, 10);
    let sent = row(ShieldedNoteKind::Sent, 100, 12);
    let view = group_shielded_activity(vec![spent.clone(), sent.clone()]);
    assert_eq!(view.unspent_count, 0);
    assert_eq!(view.spent, vec![SpentEntry::Pair { spent, sent }]);
}

#[test]
fn unpaired_spent_note_stays_in_spent_section_alone() {
    let spent = row(ShieldedNoteKind::Received { spent: true }, 100, 10);
    let view = group_shielded_activity(vec![spent.clone()]);
    assert!(view.unspent.is_empty());
    assert_eq!(view.spent, vec![SpentEntry::SpentOnly(spent)]);
}

#[test]
fn unpaired_sent_note_stays_in_spent_section_alone() {
    let sent = row(ShieldedNoteKind::Sent, 100, 10);
    let view = group_shielded_activity(vec![sent.clone()]);
    assert!(view.unspent.is_empty());
    assert_eq!(view.spent, vec![SpentEntry::SentOnly(sent)]);
}

#[test]
fn same_amount_notes_pair_oldest_to_oldest() {
    let spent_early = row(ShieldedNoteKind::Received { spent: true }, 100, 10);
    let spent_late = row(ShieldedNoteKind::Received { spent: true }, 100, 30);
    let sent_early = row(ShieldedNoteKind::Sent, 100, 20);
    let sent_late = row(ShieldedNoteKind::Sent, 100, 40);
    let view = group_shielded_activity(vec![
        spent_late.clone(),
        spent_early.clone(),
        sent_late.clone(),
        sent_early.clone(),
    ]);
    assert_eq!(
        view.spent,
        vec![
            // Most recent pair first: (spent_late, sent_late) was formed
            // from the later two, sorting above (spent_early, sent_early).
            SpentEntry::Pair {
                spent: spent_late,
                sent: sent_late,
            },
            SpentEntry::Pair {
                spent: spent_early,
                sent: sent_early,
            },
        ]
    );
}

#[test]
fn extra_spent_notes_of_an_amount_are_left_unpaired() {
    let spent_a = row(ShieldedNoteKind::Received { spent: true }, 100, 10);
    let spent_b = row(ShieldedNoteKind::Received { spent: true }, 100, 20);
    let sent = row(ShieldedNoteKind::Sent, 100, 15);
    let view = group_shielded_activity(vec![spent_a.clone(), spent_b.clone(), sent.clone()]);
    assert_eq!(
        view.spent,
        vec![
            SpentEntry::SpentOnly(spent_b),
            SpentEntry::Pair {
                spent: spent_a,
                sent
            },
        ]
    );
}

#[test]
fn different_amounts_never_pair() {
    let spent = row(ShieldedNoteKind::Received { spent: true }, 100, 10);
    let sent = row(ShieldedNoteKind::Sent, 200, 12);
    let view = group_shielded_activity(vec![spent.clone(), sent.clone()]);
    assert_eq!(
        view.spent,
        vec![SpentEntry::SentOnly(sent), SpentEntry::SpentOnly(spent)]
    );
}
