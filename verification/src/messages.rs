//! The user-facing texts, grouped as in the message file.
use vstd::prelude::*;

use crate::table::{StringTable, TableView};

verus! {

/// The message tables of the program, each keyed by a message name.
#[derive(Debug)]
pub struct Messages {
    pub message: StringTable,
    pub help_message: StringTable,
    pub restore_message: StringTable,
    pub backup_message: StringTable,
    pub apply_message: StringTable,
}

/// The views of the five tables, in the order of the fields.
pub type MessagesView = (TableView, TableView, TableView, TableView, TableView);

impl View for Messages {
    type V = MessagesView;

    open spec fn view(&self) -> MessagesView {
        (
            self.message@,
            self.help_message@,
            self.restore_message@,
            self.backup_message@,
            self.apply_message@,
        )
    }
}

impl Clone for Messages {
    fn clone(&self) -> (r: Self)
        ensures
            r@ == self@,
    {
        Messages {
            message: self.message.clone(),
            help_message: self.help_message.clone(),
            restore_message: self.restore_message.clone(),
            backup_message: self.backup_message.clone(),
            apply_message: self.apply_message.clone(),
        }
    }
}

} // verus!
