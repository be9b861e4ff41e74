//! Rename modal: text input with commit and cancel.
use crate::text::{owned, pop_char, push_char, trim, trimmed};
use crate::tui::input::Key;
use crate::tui::state::RenameModal;
use vstd::prelude::*;

verus! {

/// What a key does to the rename modal.
#[derive(Debug, PartialEq)]
pub enum RenameOutcome {
    /// Keep the modal open with its updated text.
    Stay,
    /// Close the modal without renaming.
    Cancel,
    /// Close the modal and rename to the given (trimmed, non-empty) name.
    Commit(String),
}

/// A rename modal pre-filled with `initial`; the caller sets the session id.
pub fn open(initial: &str) -> (m: RenameModal)
    ensures
        m.session_id == 0,
        m.input@ == initial@,
{
    RenameModal { session_id: 0, input: owned(initial) }
}

/// Apply one key to the modal.
pub fn apply_key(modal: &mut RenameModal, key: Key) -> (o: RenameOutcome)
    ensures
        final(modal).session_id == old(modal).session_id,
        match key {
            Key::Esc => o == RenameOutcome::Cancel && final(modal).input@ == old(modal).input@,
            Key::Enter => {
                &&& final(modal).input@ == old(modal).input@
                &&& if trimmed(old(modal).input@).len() == 0 {
                    o == RenameOutcome::Cancel
                } else {
                    o matches RenameOutcome::Commit(t) && t@ == trimmed(old(modal).input@)
                }
            },
            Key::Backspace => o == RenameOutcome::Stay && final(modal).input@ == (if old(
                modal,
            ).input@.len() > 0 {
                old(modal).input@.drop_last()
            } else {
                old(modal).input@
            }),
            Key::Char(c) => o == RenameOutcome::Stay && final(modal).input@ == old(
                modal,
            ).input@.push(c),
            _ => o == RenameOutcome::Stay && final(modal).input@ == old(modal).input@,
        },
{
    match key {
        Key::Esc => RenameOutcome::Cancel,
        Key::Enter => {
            let t = trim(modal.input.as_str());
            if t.as_str().unicode_len() == 0 {
                RenameOutcome::Cancel
            } else {
                RenameOutcome::Commit(t)
            }
        },
        Key::Backspace => {
            pop_char(&mut modal.input);
            RenameOutcome::Stay
        },
        Key::Char(c) => {
            push_char(&mut modal.input, c);
            RenameOutcome::Stay
        },
        _ => RenameOutcome::Stay,
    }
}

} // verus!
