//! The dialog that stands between a click and what it sets going.

use vstd::prelude::*;

verus! {

/// How a dialog was answered.
#[derive(Debug, Clone, Copy, PartialEq, Eq, Structural)]
pub enum ConfirmationStatus {
    Confirmed,
    Canceled,
}

/// A box in a dialog that can be checked.
#[derive(Debug, Clone, PartialEq)]
pub struct DialogCheckbox {
    pub label: String,
    pub checked: bool,
}

/// A question with its title, and a box to check where there is one.
#[derive(Debug, Clone, PartialEq)]
pub struct ConfirmationDialog {
    pub title: String,
    pub message: String,
    /// Whether what is asked about cannot be undone.
    pub danger_mode: bool,
    pub checkbox: Option<DialogCheckbox>,
}

impl ConfirmationDialog {
    /// The dialog reads like this.
    pub open spec fn reads(
        self,
        title: Seq<char>,
        message: Seq<char>,
        danger_mode: bool,
        checkbox: Option<Seq<char>>,
    ) -> bool {
        &&& self.title@ == title
        &&& self.message@ == message
        &&& self.danger_mode == danger_mode
        &&& match checkbox {
            None => self.checkbox is None,
            Some(label) => self.checkbox matches Some(b) && b.label@ == label && !b.checked,
        }
    }

    /// A dialog, with an unchecked box where a label for one is given.
    pub fn new(title: &str, message: String, danger_mode: bool, checkbox: Option<&str>) -> (dialog: Self)
        ensures
            dialog.reads(
                title@,
                message@,
                danger_mode,
                match checkbox {
                    None => None,
                    Some(label) => Some(label@),
                },
            ),
    {
        ConfirmationDialog {
            title: title.to_owned(),
            message,
            danger_mode,
            checkbox: match checkbox {
                None => None,
                Some(label) => Some(DialogCheckbox { label: label.to_owned(), checked: false }),
            },
        }
    }

    /// The box is there and checked.
    pub open spec fn spec_checkbox_checked(self) -> bool {
        self.checkbox matches Some(b) && b.checked
    }

    /// Whether the box is there and checked.
    pub fn checkbox_checked(&self) -> (r: bool)
        ensures
            r == self.spec_checkbox_checked(),
    {
        match &self.checkbox {
            None => false,
            Some(b) => b.checked,
        }
    }

    /// The dialog with its box checked or not.
    pub open spec fn with_checkbox(self, checked: bool) -> Self {
        ConfirmationDialog {
            checkbox: match self.checkbox {
                None => None,
                Some(b) => Some(DialogCheckbox { label: b.label, checked }),
            },
            ..self
        }
    }

    /// Checks or unchecks the box, if there is one.
    pub fn set_checkbox(&mut self, checked: bool)
        ensures
            *final(self) == old(self).with_checkbox(checked),
    {
        let mut taken: Option<DialogCheckbox> = None;
        std::mem::swap(&mut taken, &mut self.checkbox);
        self.checkbox = match taken {
            None => None,
            Some(b) => Some(DialogCheckbox { label: b.label, checked }),
        };
    }
}

/// A box is as it was last set, where there is one; nothing else of the dialog
/// changes with it, and without a box nothing is ever checked.
pub proof fn boxes_stay_as_they_were_set(dialog: ConfirmationDialog, checked: bool)
    ensures
        dialog.checkbox is Some ==> dialog.with_checkbox(checked).spec_checkbox_checked()
            == checked,
        dialog.checkbox is None ==> !dialog.with_checkbox(checked).spec_checkbox_checked(),
        dialog.with_checkbox(checked).title == dialog.title,
        dialog.with_checkbox(checked).message == dialog.message,
        dialog.with_checkbox(checked).danger_mode == dialog.danger_mode,
        dialog.with_checkbox(checked).checkbox is Some <==> dialog.checkbox is Some,
        dialog.checkbox matches Some(b) ==> dialog.with_checkbox(checked).checkbox->0.label
            == b.label,
{
}

/// A new dialog reads as it was made, and its box begins unchecked.
pub proof fn dialogs_begin_unchecked(
    dialog: ConfirmationDialog,
    title: Seq<char>,
    message: Seq<char>,
    danger_mode: bool,
    checkbox: Option<Seq<char>>,
)
    requires
        dialog.reads(title, message, danger_mode, checkbox),
    ensures
        dialog.title@ == title,
        dialog.message@ == message,
        dialog.danger_mode == danger_mode,
        dialog.checkbox is Some <==> checkbox is Some,
        checkbox matches Some(label) ==> dialog.checkbox->0.label@ == label,
        !dialog.spec_checkbox_checked(),
{
}

} // verus!
