use vstd::prelude::*;

verus! {

/// The texts of a dialog box: title, message and button labels.
pub struct DialogContent {
    pub title: String,
    pub message: String,
    pub buttons: Vec<String>,
}

impl DialogContent {
    /// A notice with one confirming button (`notice_title` and `ok_label`
    /// are the localised "notice" and "OK").
    pub fn simple(message: String, notice_title: String, ok_label: String) -> (res: DialogContent)
        ensures
            res.title == notice_title,
            res.message == message,
            res.buttons@ == seq![ok_label],
    {
        let mut buttons = Vec::new();
        buttons.push(ok_label);
        DialogContent { title: notice_title, message, buttons }
    }

    /// A dialog with a title, a message and one confirming button.
    pub fn plain(title: String, message: String, ok_label: String) -> (res: DialogContent)
        ensures
            res.title == title,
            res.message == message,
            res.buttons@ == seq![ok_label],
    {
        let mut buttons = Vec::new();
        buttons.push(ok_label);
        DialogContent { title, message, buttons }
    }

    /// An error report: the error's description as message, with a button
    /// that copies it and a confirming button.
    pub fn error(error_title: String, description: String, copy_label: String, ok_label: String) -> (res: DialogContent)
        ensures
            res.title == error_title,
            res.message == description,
            res.buttons@ == seq![copy_label, ok_label],
    {
        let mut buttons = Vec::new();
        buttons.push(copy_label);
        buttons.push(ok_label);
        DialogContent { title: error_title, message: description, buttons }
    }

    /// The same dialog with another title.
    pub fn title(self, title: String) -> (res: DialogContent)
        ensures
            res.title == title,
            res.message == self.message,
            res.buttons@ == self.buttons@,
    {
        DialogContent { title, message: self.message, buttons: self.buttons }
    }

    /// The same dialog with another message.
    pub fn message(self, message: String) -> (res: DialogContent)
        ensures
            res.title == self.title,
            res.message == message,
            res.buttons@ == self.buttons@,
    {
        DialogContent { title: self.title, message, buttons: self.buttons }
    }

    /// Replaces the message.
    pub fn set_message(&mut self, message: String)
        ensures
            final(self).message == message,
            final(self).title == old(self).title,
            final(self).buttons@ == old(self).buttons@,
    {
        self.message = message;
    }

    /// The same dialog with other buttons.
    pub fn buttons(self, buttons: Vec<String>) -> (res: DialogContent)
        ensures
            res.title == self.title,
            res.message == self.message,
            res.buttons@ == buttons@,
    {
        DialogContent { title: self.title, message: self.message, buttons }
    }

    /// Replaces the buttons.
    pub fn set_buttons(&mut self, buttons: Vec<String>)
        ensures
            final(self).buttons@ == buttons@,
            final(self).title == old(self).title,
            final(self).message == old(self).message,
    {
        self.buttons = buttons;
    }
}

/// Whether pressing a button closes the dialog: without a listener it does;
/// with one, exactly when the listener answers false.
pub fn button_closes(has_listener: bool, listener_keeps_open: bool) -> (res: bool)
    ensures
        res == (!has_listener || !listener_keeps_open),
{
    if has_listener {
        !listener_keeps_open
    } else {
        true
    }
}

/// Whether the dialog stays open after a touch that pressed no button: it
/// does for touches inside the window or touches that do not begin; a touch
/// beginning outside closes it unless a listener, asked with position -1,
/// keeps it open.
pub fn stays_open_after_touch(inside_or_not_started: bool, has_listener: bool, listener_keeps_open: bool) -> (res: bool)
    ensures
        res == (inside_or_not_started || (has_listener && listener_keeps_open)),
{
    if inside_or_not_started {
        true
    } else {
        has_listener && listener_keeps_open
    }
}

/// Whether the error dialog's button at `pos` copies the description: the
/// first button does.
pub fn error_button_copies(pos: i32) -> (res: bool)
    ensures
        res == (pos == 0),
{
    pos == 0
}

} // verus!
