//! The dialog in which one text is edited.

use vstd::prelude::*;
use vstd::string::StrSliceExecFns;

use crate::model::text;
use crate::model::validation::validate_char_count;

verus! {

/// How an edit ended.
#[derive(Debug, Clone, PartialEq)]
pub enum TextEditStatus {
    /// The text was saved.
    Saved(String),
    /// The dialog was cancelled, closed or clicked away.
    Canceled,
}

/// How many characters a text may have.
#[derive(Debug, Clone, Copy, PartialEq, Eq)]
pub struct LengthRule {
    pub min: usize,
    pub max: usize,
}

impl LengthRule {
    /// The text keeps the rule.
    pub open spec fn accepts(self, text: Seq<char>) -> bool {
        self.min <= text.len() <= self.max
    }
}

/// What the user did while the dialog was shown.
#[derive(Debug, Clone, Copy, PartialEq, Eq)]
pub struct DialogInput {
    pub save_clicked: bool,
    pub cancel_clicked: bool,
    /// The window was closed at its corner.
    pub closed_via_x: bool,
    pub escape_pressed: bool,
    pub clicked_outside: bool,
}

/// What showing the dialog came to.
#[derive(Debug, Clone, PartialEq)]
pub struct TextEditDialogComponentResponse {
    pub changed: bool,
    pub error_message: Option<String>,
    pub dialog_response: Option<TextEditStatus>,
}

impl TextEditDialogComponentResponse {
    /// Whether the dialog ended.
    pub fn has_changed(&self) -> (r: bool)
        ensures
            r == self.changed,
    {
        self.changed
    }

    /// Whether nothing went wrong.
    pub fn is_valid(&self) -> (r: bool)
        ensures
            r == (self.error_message is None),
    {
        self.error_message.is_none()
    }

    /// How the dialog ended, if it did.
    pub fn changed_value(&self) -> (value: Option<&TextEditStatus>)
        ensures
            match value {
                Some(v) => self.changed && self.dialog_response == Some(*v),
                None => !self.changed || self.dialog_response is None,
            },
    {
        if self.changed {
            self.dialog_response.as_ref()
        } else {
            None
        }
    }
}

/// A dialog in which one text is edited. Saving is possible only while the text,
/// without the whitespace around it, keeps the rule.
#[derive(Debug, Clone, PartialEq)]
pub struct TextEditDialog {
    pub title: String,
    pub text: String,
    /// What the character count is shown against.
    pub max_chars: usize,
    pub rule: LengthRule,
    /// What is shown while the text does not keep the rule.
    pub too_long_message: String,
    pub blocks_input: bool,
    pub is_open: bool,
}

impl TextEditDialog {
    /// An open dialog that holds `initial_text` and keeps clicks from what is
    /// behind it.
    pub fn new(
        title: &str,
        initial_text: &str,
        max_chars: usize,
        rule: LengthRule,
        too_long_message: &str,
    ) -> (dialog: Self)
        ensures
            dialog.title@ == title@,
            dialog.text@ == initial_text@,
            dialog.max_chars == max_chars,
            dialog.rule == rule,
            dialog.too_long_message@ == too_long_message@,
            dialog.blocks_input,
            dialog.is_open,
    {
        TextEditDialog {
            title: title.to_owned(),
            text: initial_text.to_owned(),
            max_chars,
            rule,
            too_long_message: too_long_message.to_owned(),
            blocks_input: true,
            is_open: true,
        }
    }

    /// The dialog with or without its hold on what is behind it.
    pub fn blocks_input(self, enabled: bool) -> (dialog: Self)
        ensures
            dialog == (TextEditDialog { blocks_input: enabled, ..self }),
    {
        TextEditDialog { blocks_input: enabled, ..self }
    }

    /// The text can be saved as it stands.
    pub open spec fn savable(self) -> bool {
        self.rule.accepts(text::trimmed(self.text@))
    }

    /// Whether the text can be saved as it stands.
    pub fn can_save(&self) -> (r: bool)
        ensures
            r == self.savable(),
    {
        let trimmed: String = text::trim(self.text.as_str());
        validate_char_count(trimmed.as_str(), self.rule.min, self.rule.max).is_ok()
    }

    /// How many characters the text has, the whitespace around it counted.
    pub fn char_count(&self) -> (count: usize)
        ensures
            count == self.text@.len(),
    {
        self.text.as_str().unicode_len()
    }

    /// How the dialog ends on this input. The cancel button outdoes the save
    /// button; any other way out counts only where neither was used.
    pub open spec fn outcome(self, input: DialogInput) -> Option<Option<Seq<char>>> {
        if !self.is_open {
            None
        } else if input.cancel_clicked {
            Some(None)
        } else if input.save_clicked && self.savable() {
            Some(Some(text::trimmed(self.text@)))
        } else if input.closed_via_x || input.escape_pressed || input.clicked_outside {
            Some(None)
        } else {
            None
        }
    }

    /// The dialog after this input.
    pub open spec fn after(self, input: DialogInput) -> Self {
        TextEditDialog { is_open: self.is_open && !input.closed_via_x, ..self }
    }

    /// Takes in what the user did, and tells how the dialog ended if it did. A
    /// dialog that is closed takes in nothing.
    pub fn show(&mut self, input: &DialogInput) -> (response: TextEditDialogComponentResponse)
        ensures
            match old(self).outcome(*input) {
                None => response.dialog_response is None,
                Some(None) => response.dialog_response == Some(TextEditStatus::Canceled),
                Some(Some(text)) => response.dialog_response matches Some(TextEditStatus::Saved(s))
                    && s@ == text,
            },
            response.changed == (response.dialog_response is Some),
            response.error_message is None,
            *final(self) == old(self).after(*input),
    {
        let mut ended: Option<TextEditStatus> = None;
        if self.is_open {
            if input.save_clicked && self.can_save() {
                ended = Some(TextEditStatus::Saved(text::trim(self.text.as_str())));
            }
            if input.cancel_clicked {
                ended = Some(TextEditStatus::Canceled);
            }
            if ended.is_none() && (input.closed_via_x || input.escape_pressed
                || input.clicked_outside) {
                ended = Some(TextEditStatus::Canceled);
            }
            self.is_open = !input.closed_via_x;
        }
        TextEditDialogComponentResponse {
            changed: ended.is_some(),
            error_message: None,
            dialog_response: ended,
        }
    }

    /// What the dialog stands for.
    pub open spec fn standing(self) -> Option<TextEditStatus> {
        if self.is_open {
            None
        } else {
            Some(TextEditStatus::Canceled)
        }
    }

    /// What the dialog stands for: nothing while it is open, a cancellation once it
    /// is closed.
    pub fn current_value(&self) -> (value: Option<TextEditStatus>)
        ensures
            value == self.standing(),
    {
        if self.is_open {
            None
        } else {
            Some(TextEditStatus::Canceled)
        }
    }
}

/// What is saved is the text without the whitespace around it, and only where it has
/// neither too few characters nor too many; it is saved only on a click.
pub proof fn only_fitting_texts_are_saved(dialog: TextEditDialog, input: DialogInput)
    ensures
        dialog.outcome(input) matches Some(Some(saved)) ==> {
            &&& saved == text::trimmed(dialog.text@)
            &&& dialog.rule.min <= saved.len() <= dialog.rule.max
            &&& input.save_clicked
            &&& !input.cancel_clicked
            &&& dialog.is_open
        },
        dialog.is_open && input.save_clicked && !input.cancel_clicked && dialog.rule.min
            <= text::trimmed(dialog.text@).len() <= dialog.rule.max ==> dialog.outcome(input)
            == Some(Some(text::trimmed(dialog.text@))),
{
}

/// A dialog ends on a way out, or on a text that can be saved; without either it
/// goes on, and cancelling outdoes everything.
pub proof fn dialogs_end_when_asked(dialog: TextEditDialog, input: DialogInput)
    ensures
        !dialog.is_open ==> dialog.outcome(input) is None,
        dialog.is_open && input.cancel_clicked ==> dialog.outcome(input) == Some(
            None::<Seq<char>>,
        ),
        dialog.is_open && !input.save_clicked && (input.closed_via_x || input.escape_pressed
            || input.clicked_outside) ==> dialog.outcome(input) == Some(None::<Seq<char>>),
        !input.cancel_clicked && !input.save_clicked && !input.closed_via_x
            && !input.escape_pressed && !input.clicked_outside ==> dialog.outcome(input) is None,
        dialog.outcome(input) == Some(None::<Seq<char>>) ==> input.cancel_clicked
            || input.closed_via_x || input.escape_pressed || input.clicked_outside,
{
}

/// A dialog is closed by its corner and stays closed, as a cancellation; what it
/// holds stays as it is.
pub proof fn closed_dialogs_stay_closed(dialog: TextEditDialog, input: DialogInput)
    ensures
        dialog.after(input).is_open <==> dialog.is_open && !input.closed_via_x,
        dialog.after(input).text == dialog.text,
        dialog.after(input).rule == dialog.rule,
        dialog.after(input).title == dialog.title,
        dialog.after(input).max_chars == dialog.max_chars,
        dialog.after(input).too_long_message == dialog.too_long_message,
        dialog.after(input).blocks_input == dialog.blocks_input,
        dialog.is_open ==> dialog.standing() is None,
        !dialog.is_open ==> dialog.standing() == Some(TextEditStatus::Canceled),
{
}

} // verus!
