//! Saving the Settings draft and leaving a slot book with unsaved edits:
//! the order of the steps, where each one stops the save, and what follows.

use vstd::prelude::*;

use crate::settings::{after_save, slots_save_plan, AfterSave, SlotsSave};

verus! {

/// Why Save / Apply stopped (each shows its message; nothing later runs).
#[derive(Clone, Copy, Debug, PartialEq, Eq, Structural)]
pub enum SaveAbort {
    /// The pending slot form was refused (its own message was shown).
    SlotFormRejected,
    /// A numeric field or combo of the form was refused.
    FieldRejected,
    /// The settings file could not be read when the window opened: never overwrite it.
    SettingsUnwritable,
    /// A `chain:` slot is invalid or the chains form a cycle.
    ChainInvalid,
    SettingsWriteFailed,
    /// The slot file that was broken when the window opened: never overwrite it.
    SlotsUnwritable,
    SlotsWriteFailed,
}

/// A finished save.
#[derive(Clone, Copy, Debug, PartialEq, Eq, Structural)]
pub struct SaveDone {
    /// The slot file was written (the slots baseline becomes the draft).
    pub slots_saved: bool,
    pub then: AfterSave,
}

/// The answers of each step of a save, in order. A step's answer is only
/// read when every step before it passed.
#[derive(Clone, Copy, Debug, PartialEq, Eq, Structural)]
pub struct SaveInputs {
    /// The Slots tab may edit the selected book.
    pub edit_allowed: bool,
    /// The slot form differs from the draft.
    pub form_dirty: bool,
    /// Committing the slot form succeeded.
    pub form_applied: bool,
    /// Reading the form's fields into the draft succeeded.
    pub fields_ok: bool,
    pub settings_writable: bool,
    pub chains_ok: bool,
    /// Writing the settings file succeeded.
    pub settings_saved: bool,
    /// The selected slot file may be written (not a sample or empty name).
    pub target_writable: bool,
    /// The slot file read when the window opened was readable.
    pub slots_writable: bool,
    /// The selected slot file is the one that was open when the window opened.
    pub target_is_path_at_open: bool,
    /// Writing the slot file succeeded.
    pub slots_written: bool,
    /// Save (close afterwards) rather than Apply.
    pub close_after: bool,
    pub locale_changed: bool,
    pub slots_file_changed: bool,
}

pub open spec fn save_outcome_spec(i: SaveInputs) -> Result<SaveDone, SaveAbort> {
    if i.edit_allowed && i.form_dirty && !i.form_applied {
        Err(SaveAbort::SlotFormRejected)
    } else if !i.fields_ok {
        Err(SaveAbort::FieldRejected)
    } else if !i.settings_writable {
        Err(SaveAbort::SettingsUnwritable)
    } else if !i.chains_ok {
        Err(SaveAbort::ChainInvalid)
    } else if !i.settings_saved {
        Err(SaveAbort::SettingsWriteFailed)
    } else {
        let then = if i.close_after {
            AfterSave::Close
        } else if i.locale_changed || i.slots_file_changed {
            AfterSave::Reopen
        } else {
            AfterSave::ShowSaved
        };
        if !i.target_writable {
            Ok(SaveDone { slots_saved: false, then })
        } else if !i.slots_writable && i.target_is_path_at_open {
            Err(SaveAbort::SlotsUnwritable)
        } else if !i.slots_written {
            Err(SaveAbort::SlotsWriteFailed)
        } else {
            Ok(SaveDone { slots_saved: true, then })
        }
    }
}

/// The outcome of Save (`close_after`) or Apply.
pub fn save_draft_outcome(i: SaveInputs) -> (r: Result<SaveDone, SaveAbort>)
    ensures
        r == save_outcome_spec(i),
{
    if i.edit_allowed && i.form_dirty && !i.form_applied {
        return Err(SaveAbort::SlotFormRejected);
    }
    if !i.fields_ok {
        return Err(SaveAbort::FieldRejected);
    }
    if !i.settings_writable {
        return Err(SaveAbort::SettingsUnwritable);
    }
    if !i.chains_ok {
        return Err(SaveAbort::ChainInvalid);
    }
    if !i.settings_saved {
        return Err(SaveAbort::SettingsWriteFailed);
    }
    let then = after_save(i.close_after, i.locale_changed, i.slots_file_changed);
    match slots_save_plan(i.target_writable, i.slots_writable, i.target_is_path_at_open) {
        SlotsSave::Skip => Ok(SaveDone { slots_saved: false, then }),
        SlotsSave::Refuse => Err(SaveAbort::SlotsUnwritable),
        SlotsSave::Save => if i.slots_written {
            Ok(SaveDone { slots_saved: true, then })
        } else {
            Err(SaveAbort::SlotsWriteFailed)
        },
    }
}

/// A settings file that was unreadable when Settings opened is never
/// overwritten, and neither is the slot file that was broken then: a save
/// that would write either stops first.
pub proof fn lemma_broken_files_never_overwritten(i: SaveInputs)
    ensures
        !i.settings_writable ==> save_outcome_spec(i) is Err,
        (i.target_writable && !i.slots_writable && i.target_is_path_at_open) ==> !(
        save_outcome_spec(i) matches Ok(d) && d.slots_saved),
{
}

/// The user's answer to "save changes to this book first?".
#[derive(Clone, Copy, Debug, PartialEq, Eq, Structural)]
pub enum LeaveAnswer {
    Yes,
    No,
    Cancel,
}

/// The answers when leaving a slot book, in order; each is read only when
/// reached (the question is asked only with unsaved edits).
#[derive(Clone, Copy, Debug, PartialEq, Eq, Structural)]
pub struct LeaveInputs {
    /// The slot form differs from the draft.
    pub form_dirty: bool,
    /// The draft's slots differ from the last saved ones.
    pub slots_changed: bool,
    pub answer: LeaveAnswer,
    /// Committing the slot form succeeded.
    pub form_applied: bool,
    /// The book's slot file may be written.
    pub target_writable: bool,
    /// Writing the slot file succeeded.
    pub slots_written: bool,
}

pub open spec fn leave_book_spec(i: LeaveInputs) -> bool {
    if !(i.form_dirty || i.slots_changed) {
        true
    } else {
        match i.answer {
            LeaveAnswer::Yes => if i.form_dirty && !i.form_applied {
                false
            } else if !i.target_writable {
                true
            } else {
                i.slots_written
            },
            LeaveAnswer::No => true,
            LeaveAnswer::Cancel => false,
        }
    }
}

/// Whether the book may be left: without edits at once; otherwise as the
/// user answers (Yes saves first and stays when saving fails, No discards,
/// Cancel stays).
pub fn confirm_leave_slots_book(i: LeaveInputs) -> (r: bool)
    ensures
        r == leave_book_spec(i),
{
    if !(i.form_dirty || i.slots_changed) {
        return true;
    }
    match i.answer {
        LeaveAnswer::Yes => {
            if i.form_dirty && !i.form_applied {
                false
            } else if !i.target_writable {
                true
            } else {
                i.slots_written
            }
        },
        LeaveAnswer::No => true,
        LeaveAnswer::Cancel => false,
    }
}

} // verus!
