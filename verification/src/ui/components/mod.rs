//! Parts that screens are made of.

pub mod confirmation_dialog;
pub mod onboarding_progress;
pub mod text_edit_dialog;
