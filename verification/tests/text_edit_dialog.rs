use orchardpay::ui::components::text_edit_dialog::{
    DialogInput, LengthRule, TextEditDialog, TextEditStatus,
};

fn short_text_rule() -> LengthRule {
    LengthRule { min: 0, max: 5 }
}

fn nothing() -> DialogInput {
    DialogInput {
        save_clicked: false,
        cancel_clicked: false,
        closed_via_x: false,
        escape_pressed: false,
        clicked_outside: false,
    }
}

#[test]
fn dialog_starts_open_with_initial_text() {
    let dialog = TextEditDialog::new("Edit", "hello", 5, short_text_rule(), "Too long.");
    assert!(dialog.is_open);
    assert_eq!(dialog.text, "hello");
}

#[test]
fn save_is_rejected_when_validator_fails() {
    let mut dialog = TextEditDialog::new(
        "Edit",
        "way too long for the limit",
        5,
        short_text_rule(),
        "Too long.",
    );

    let status = dialog.show(&nothing()).dialog_response;
    assert_eq!(status, None);

    let status = dialog
        .show(&DialogInput { save_clicked: true, ..nothing() })
        .dialog_response;
    assert_eq!(
        status, None,
        "the Save button must be disabled while validation fails, so no click can register"
    );
}

#[test]
fn saving_gives_the_trimmed_text() {
    let mut dialog = TextEditDialog::new("Edit", "  hi \n", 5, short_text_rule(), "Too long.");
    assert_eq!(dialog.char_count(), 6);
    assert!(dialog.can_save());
    let response = dialog.show(&DialogInput { save_clicked: true, ..nothing() });
    assert_eq!(
        response.changed_value(),
        Some(&TextEditStatus::Saved("hi".to_string()))
    );
    assert!(response.has_changed());
    assert!(response.is_valid());
}

#[test]
fn every_way_out_cancels() {
    let outs = [
        DialogInput { cancel_clicked: true, ..nothing() },
        DialogInput { closed_via_x: true, ..nothing() },
        DialogInput { escape_pressed: true, ..nothing() },
        DialogInput { clicked_outside: true, ..nothing() },
        DialogInput { cancel_clicked: true, save_clicked: true, ..nothing() },
    ];
    for input in outs {
        let mut dialog = TextEditDialog::new("Edit", "hi", 5, short_text_rule(), "Too long.");
        let response = dialog.show(&input);
        assert_eq!(response.dialog_response, Some(TextEditStatus::Canceled));
    }
}

#[test]
fn a_closed_dialog_takes_in_nothing() {
    let mut dialog = TextEditDialog::new("Edit", "hi", 5, short_text_rule(), "Too long.");
    assert_eq!(dialog.current_value(), None);
    dialog.show(&DialogInput { closed_via_x: true, ..nothing() });
    assert!(!dialog.is_open);
    assert_eq!(dialog.current_value(), Some(TextEditStatus::Canceled));
    let response = dialog.show(&DialogInput { save_clicked: true, ..nothing() });
    assert_eq!(response.dialog_response, None);
}

#[test]
fn a_dialog_can_let_go_of_what_is_behind_it() {
    let dialog = TextEditDialog::new("Edit", "hi", 5, short_text_rule(), "Too long.");
    assert!(dialog.blocks_input);
    assert!(!dialog.blocks_input(false).blocks_input);
}
