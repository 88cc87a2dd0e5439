use orchardpay::model::validation::strip_unsafe_display_characters;

#[test]
fn leaves_ordinary_text_unchanged() {
    assert_eq!(
        strip_unsafe_display_characters("hello world"),
        "hello world"
    );
}

#[test]
fn strips_bidi_override_characters() {
    let input = "10\u{202e}HSAD 0000\u{202c} DASH";
    let stripped = strip_unsafe_display_characters(input);
    assert!(!stripped.contains('\u{202e}'));
    assert!(!stripped.contains('\u{202c}'));
    assert_eq!(stripped, "10HSAD 0000 DASH");
}

#[test]
fn strips_zero_width_characters() {
    let input = "he\u{200b}llo\u{200d}world\u{feff}";
    assert_eq!(strip_unsafe_display_characters(input), "helloworld");
}

#[test]
fn strips_control_characters() {
    let input = "hello\u{0007}world\u{001b}";
    assert_eq!(strip_unsafe_display_characters(input), "helloworld");
}

#[test]
fn preserves_ordinary_unicode() {
    assert_eq!(
        strip_unsafe_display_characters("héllo 日本語"),
        "héllo 日本語"
    );
}
