//! A confirmation dialog for actions that cannot be undone.

use vstd::prelude::*;
use vstd::string::*;

verus! {

/// What a confirmation dialog shows, and the action `C` run on
/// confirmation. The action returns whether the dialog closes.
pub struct ConfirmDialog<C> {
    pub title: String,
    pub message: Option<String>,
    pub confirm_text: String,
    pub cancel_text: String,
    pub is_danger: bool,
    pub on_confirm: Option<C>,
}

impl<C> ConfirmDialog<C> {
    /// A dialog titled `title`, with buttons "Confirm" and "Cancel", no
    /// message, no action, and the ordinary style.
    pub fn new(title: &str) -> (r: Self)
        ensures
            r.title@ == title@,
            r.message is None,
            r.confirm_text@ == "Confirm"@,
            r.cancel_text@ == "Cancel"@,
            !r.is_danger,
            r.on_confirm is None,
    {
        ConfirmDialog {
            title: String::from_str(title),
            message: None,
            confirm_text: String::from_str("Confirm"),
            cancel_text: String::from_str("Cancel"),
            is_danger: false,
            on_confirm: None,
        }
    }

    /// Sets the message shown under the title.
    pub fn message(self, message: &str) -> (r: Self)
        ensures
            r.message matches Some(m) && m@ == message@,
            r.title == self.title,
            r.confirm_text == self.confirm_text,
            r.cancel_text == self.cancel_text,
            r.is_danger == self.is_danger,
            r.on_confirm == self.on_confirm,
    {
        ConfirmDialog { message: Some(String::from_str(message)), ..self }
    }

    /// Sets the text of the confirm button.
    pub fn confirm_text(self, text: &str) -> (r: Self)
        ensures
            r.confirm_text@ == text@,
            r.title == self.title,
            r.message == self.message,
            r.cancel_text == self.cancel_text,
            r.is_danger == self.is_danger,
            r.on_confirm == self.on_confirm,
    {
        ConfirmDialog { confirm_text: String::from_str(text), ..self }
    }

    /// Sets the text of the cancel button.
    pub fn cancel_text(self, text: &str) -> (r: Self)
        ensures
            r.cancel_text@ == text@,
            r.title == self.title,
            r.message == self.message,
            r.confirm_text == self.confirm_text,
            r.is_danger == self.is_danger,
            r.on_confirm == self.on_confirm,
    {
        ConfirmDialog { cancel_text: String::from_str(text), ..self }
    }

    /// Marks the action as dangerous: the confirm button takes the
    /// destructive style.
    pub fn danger(self) -> (r: Self)
        ensures
            r.is_danger,
            r.title == self.title,
            r.message == self.message,
            r.confirm_text == self.confirm_text,
            r.cancel_text == self.cancel_text,
            r.on_confirm == self.on_confirm,
    {
        ConfirmDialog { is_danger: true, ..self }
    }

    /// Sets the action run when the user confirms.
    pub fn on_confirm(self, callback: C) -> (r: Self)
        ensures
            r.on_confirm == Some(callback),
            r.title == self.title,
            r.message == self.message,
            r.confirm_text == self.confirm_text,
            r.cancel_text == self.cancel_text,
            r.is_danger == self.is_danger,
    {
        ConfirmDialog { on_confirm: Some(callback), ..self }
    }
}

} // verus!
