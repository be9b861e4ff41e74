//! Keys of the dashboard and what they do. A key changes the state at once
//! and may ask for one daemon call; the result of that call comes back
//! through [`finish_action`].
use crate::protocol::Session;
use crate::text::{file_name, file_name_of, owned, trimmed};
use crate::tui::new_modal::{self, NewModalOutcome};
use crate::tui::rename_modal::{self, RenameOutcome};
use crate::tui::state::{NewModal, RenameModal, TuiState};
use vstd::prelude::*;

verus! {

/// A key press, as the dashboard tells keys apart.
#[derive(Debug, Clone, Copy, PartialEq, Eq, Structural)]
pub enum Key {
    Esc,
    Enter,
    Backspace,
    Up,
    Down,
    Char(char),
    /// Any other key.
    Other,
}

/// The daemon call (or exit) a key asks for.
#[derive(Debug, PartialEq)]
pub enum KeyAction {
    /// Nothing beyond the state change.
    Nothing,
    /// Leave the dashboard.
    Quit,
    /// Fetch the recent sessions and open the new-session modal with them.
    OpenNewModal,
    /// `session.jump` to the session.
    Jump(u128),
    /// `session.kill` the session, whose display name is `name`.
    Kill { id: u128, name: String },
    /// `session.rename` the session to `name`.
    Rename { id: u128, name: String },
    /// `session.create` an opencode session in `working_dir` named `name`.
    Create { working_dir: String, name: String },
}

/// The display name a session created in `dir` gets: the last component of
/// the path, or `session` where it has none.
pub open spec fn default_name(dir: Seq<char>) -> Seq<char> {
    match file_name_of(dir) {
        Some(n) => n,
        None => "session"@,
    }
}

/// The display name a session created in `dir` gets.
pub fn default_session_name(dir: &str) -> (r: String)
    ensures
        r@ == default_name(dir@),
{
    match file_name(dir) {
        Some(n) => n,
        None => owned("session"),
    }
}

/// Fields the key handler never touches.
pub open spec fn data_kept(old: &TuiState, new: &TuiState) -> bool {
    &&& new.sessions@ == old.sessions@
    &&& new.plugins@ == old.plugins@
    &&& new.counters == old.counters
    &&& new.flash_until == old.flash_until
}

/// Everything but the rename modal and the redraw flag as it was.
pub open spec fn rest_kept_but_rename(old: &TuiState, new: &TuiState) -> bool {
    &&& new.selected == old.selected
    &&& new.show_help == old.show_help
    &&& new.new_modal == old.new_modal
    &&& new.status_message == old.status_message
}

/// The effect of a key while the rename modal is open.
pub open spec fn rename_key_effect(
    m: RenameModal,
    old: &TuiState,
    new: &TuiState,
    key: Key,
    a: KeyAction,
) -> bool {
    let t = trimmed(m.input@);
    &&& rest_kept_but_rename(old, new)
    &&& new.dirty
    &&& match key {
        Key::Esc => new.rename_modal is None && a == KeyAction::Nothing,
        Key::Enter => new.rename_modal is None && if t.len() == 0 {
            a == KeyAction::Nothing
        } else {
            a matches KeyAction::Rename { id, name } && id == m.session_id && name@ == t
        },
        Key::Backspace => {
            &&& a == KeyAction::Nothing
            &&& new.rename_modal matches Some(r) && r.session_id == m.session_id && r.input@ == (
            if m.input@.len() > 0 {
                m.input@.drop_last()
            } else {
                m.input@
            })
        },
        Key::Char(c) => {
            &&& a == KeyAction::Nothing
            &&& new.rename_modal matches Some(r) && r.session_id == m.session_id && r.input@
                == m.input@.push(c)
        },
        _ => {
            &&& a == KeyAction::Nothing
            &&& new.rename_modal matches Some(r) && r.session_id == m.session_id && r.input@
                == m.input@
        },
    }
}

/// The effect of a key while the new-session modal is open.
pub open spec fn new_modal_key_effect(
    m: NewModal,
    old: &TuiState,
    new: &TuiState,
    key: Key,
    a: KeyAction,
    now: u64,
) -> bool {
    let shown = m.recents@.filter(new_modal::shown_under(m.query@));
    let target = if shown.len() > 0 {
        shown[0].0@
    } else {
        "."@
    };
    &&& new.selected == old.selected
    &&& new.show_help == old.show_help
    &&& new.rename_modal == old.rename_modal
    &&& new.dirty
    &&& match key {
        Key::Esc => new.new_modal is None && a == KeyAction::Nothing && new.status_message
            == old.status_message,
        Key::Enter => {
            &&& new.new_modal is None
            &&& a matches KeyAction::Create { working_dir, name } && working_dir@ == target
                && name@ == default_name(target)
            &&& new.status_message matches Some((msg, t)) && t == now && msg@
                == "Creating session in "@ + target
        },
        Key::Backspace => {
            &&& a == KeyAction::Nothing
            &&& new.status_message == old.status_message
            &&& new.new_modal matches Some(r) && r.recents@ == m.recents@ && r.query@ == (
            if m.query@.len() > 0 {
                m.query@.drop_last()
            } else {
                m.query@
            })
        },
        Key::Char(c) => {
            &&& a == KeyAction::Nothing
            &&& new.status_message == old.status_message
            &&& new.new_modal matches Some(r) && r.recents@ == m.recents@ && r.query@
                == m.query@.push(c)
        },
        _ => {
            &&& a == KeyAction::Nothing
            &&& new.status_message == old.status_message
            &&& new.new_modal matches Some(r) && r.recents@ == m.recents@ && r.query@ == m.query@
        },
    }
}

/// The effect of a key while the help overlay is shown (no modal open).
pub open spec fn help_key_effect(old: &TuiState, new: &TuiState, key: Key, a: KeyAction) -> bool {
    let closes = key == Key::Esc || key == Key::Char('?') || key == Key::Char('q');
    &&& new.selected == old.selected
    &&& new.rename_modal == old.rename_modal
    &&& new.new_modal == old.new_modal
    &&& new.status_message == old.status_message
    &&& new.dirty == old.dirty
    &&& new.show_help == !closes
    &&& a == if key == Key::Char('q') {
        KeyAction::Quit
    } else {
        KeyAction::Nothing
    }
}

/// `a` asks to kill session `s`.
pub open spec fn kill_of(a: KeyAction, s: Session) -> bool {
    a matches KeyAction::Kill { id, name } && id == s.id && name@ == s.display_name@
}

/// The effect of a key on the session list (no modal, no help).
pub open spec fn list_key_effect(old: &TuiState, new: &TuiState, key: Key, a: KeyAction) -> bool {
    let s = old.sessions@;
    let sel = old.selected;
    let in_range = sel < s.len();
    if key == Key::Esc || key == Key::Char('q') || key == Key::Char('Q') {
        &&& a == KeyAction::Quit
        &&& new.selected == sel
        &&& new.show_help == old.show_help
        &&& new.rename_modal == old.rename_modal
        &&& new.new_modal == old.new_modal
        &&& new.status_message == old.status_message
        &&& new.dirty == old.dirty
    } else {
        &&& new.dirty
        &&& new.new_modal == old.new_modal
        &&& new.status_message == old.status_message
        &&& new.show_help == (old.show_help || key == Key::Char('?'))
        &&& new.rename_modal == if (key == Key::Char('r') || key == Key::Char('R')) && in_range {
            Some(RenameModal { session_id: s[sel as int].id, input: s[sel as int].display_name })
        } else {
            old.rename_modal
        }
        &&& new.selected == if key == Key::Char('j') || key == Key::Down {
            if s.len() > 0 {
                if sel + 1 < s.len() - 1 {
                    (sel + 1) as usize
                } else {
                    (s.len() - 1) as usize
                }
            } else {
                sel
            }
        } else if key == Key::Char('k') || key == Key::Up {
            if sel > 0 {
                (sel - 1) as usize
            } else {
                0
            }
        } else if key == Key::Char('g') {
            0
        } else if key == Key::Char('G') && s.len() > 0 {
            (s.len() - 1) as usize
        } else {
            sel
        }
        &&& a == if key == Key::Char('c') || key == Key::Char('C') {
            KeyAction::OpenNewModal
        } else if key == Key::Enter && in_range {
            KeyAction::Jump(s[sel as int].id)
        } else if !((key == Key::Char('x') || key == Key::Char('X')) && in_range) {
            KeyAction::Nothing
        } else {
            a
        }
        &&& (key == Key::Char('x') || key == Key::Char('X')) && in_range ==> kill_of(a, s[sel as int])
    }
}

/// The effect of a key press: routed to the rename modal, else the
/// new-session modal, else the help overlay, else the session list.
pub open spec fn key_effect(old: &TuiState, new: &TuiState, key: Key, a: KeyAction, now: u64) -> bool {
    &&& data_kept(old, new)
    &&& match old.rename_modal {
        Some(m) => rename_key_effect(m, old, new, key, a),
        None => match old.new_modal {
            Some(m) => new_modal_key_effect(m, old, new, key, a, now),
            None => if old.show_help {
                help_key_effect(old, new, key, a)
            } else {
                list_key_effect(old, new, key, a)
            },
        },
    }
}

fn rename_modal_key(state: &mut TuiState, key: Key) -> (a: KeyAction)
    requires
        old(state).rename_modal is Some,
    ensures
        data_kept(&*old(state), &*final(state)),
        rename_key_effect(old(state).rename_modal->0, &*old(state), &*final(state), key, a),
{
    let mut modal = state.rename_modal.take().unwrap();
    let id = modal.session_id;
    let outcome = rename_modal::apply_key(&mut modal, key);
    let a = match outcome {
        RenameOutcome::Stay => {
            state.rename_modal = Some(modal);
            KeyAction::Nothing
        },
        RenameOutcome::Cancel => KeyAction::Nothing,
        RenameOutcome::Commit(name) => KeyAction::Rename { id, name },
    };
    state.dirty = true;
    a
}

fn new_modal_key(state: &mut TuiState, key: Key, now: u64) -> (a: KeyAction)
    requires
        old(state).new_modal is Some,
    ensures
        data_kept(&*old(state), &*final(state)),
        new_modal_key_effect(old(state).new_modal->0, &*old(state), &*final(state), key, a, now),
{
    let mut modal = state.new_modal.take().unwrap();
    let outcome = new_modal::apply_key(&mut modal, key);
    let a = match outcome {
        NewModalOutcome::Stay => {
            state.new_modal = Some(modal);
            KeyAction::Nothing
        },
        NewModalOutcome::Cancel => KeyAction::Nothing,
        NewModalOutcome::Commit(path) => {
            let name = default_session_name(path.as_str());
            let msg = owned("Creating session in ").concat(path.as_str());
            state.status_message = Some((msg, now));
            KeyAction::Create { working_dir: path, name }
        },
    };
    state.dirty = true;
    a
}

fn list_key(state: &mut TuiState, key: Key) -> (a: KeyAction)
    requires
        old(state).selected < usize::MAX,
    ensures
        data_kept(&*old(state), &*final(state)),
        list_key_effect(&*old(state), &*final(state), key, a),
{
    let n = state.sessions.len();
    let mut a = KeyAction::Nothing;
    match key {
        Key::Esc | Key::Char('q') | Key::Char('Q') => {
            return KeyAction::Quit;
        },
        Key::Char('c') | Key::Char('C') => {
            a = KeyAction::OpenNewModal;
        },
        Key::Char('r') | Key::Char('R') => {
            if state.selected < n {
                let s: &Session = &state.sessions[state.selected];
                let m = RenameModal { session_id: s.id, input: s.display_name.clone() };
                state.rename_modal = Some(m);
            }
        },
        Key::Char('?') => {
            state.show_help = true;
        },
        Key::Char('j') | Key::Down => {
            if n > 0 {
                let next = state.selected + 1;
                state.selected = if next < n - 1 {
                    next
                } else {
                    n - 1
                };
            }
        },
        Key::Char('k') | Key::Up => {
            state.selected = if state.selected > 0 {
                state.selected - 1
            } else {
                0
            };
        },
        Key::Char('g') => {
            state.selected = 0;
        },
        Key::Char('G') => {
            if n > 0 {
                state.selected = n - 1;
            }
        },
        Key::Enter => {
            if state.selected < n {
                a = KeyAction::Jump(state.sessions[state.selected].id);
            }
        },
        Key::Char('x') | Key::Char('X') => {
            if state.selected < n {
                let s: &Session = &state.sessions[state.selected];
                a = KeyAction::Kill { id: s.id, name: s.display_name.clone() };
            }
        },
        _ => {},
    }
    state.dirty = true;
    a
}

/// Handle a key press at instant `now`: change the state as [`key_effect`]
/// says and return the daemon call (or exit) the key asks for.
pub fn handle_key(state: &mut TuiState, key: Key, now: u64) -> (a: KeyAction)
    requires
        old(state).selected < usize::MAX,
    ensures
        key_effect(&*old(state), &*final(state), key, a, now),
{
    if state.rename_modal.is_some() {
        return rename_modal_key(state, key);
    }
    if state.new_modal.is_some() {
        return new_modal_key(state, key, now);
    }
    if state.show_help {
        if key == Key::Esc || key == Key::Char('?') || key == Key::Char('q') {
            state.show_help = false;
            if key == Key::Char('q') {
                return KeyAction::Quit;
            }
        }
        return KeyAction::Nothing;
    }
    list_key(state, key)
}

/// Record at instant `now` how a daemon call asked for by a key went
/// (`Err` carries the failure's text): a jump or kill leaves a status
/// message; other calls leave the state as it is.
pub fn finish_action(state: &mut TuiState, action: &KeyAction, outcome: Result<(), String>, now: u64)
    ensures
        data_kept(&*old(state), &*final(state)),
        final(state).selected == old(state).selected,
        final(state).show_help == old(state).show_help,
        final(state).rename_modal == old(state).rename_modal,
        final(state).new_modal == old(state).new_modal,
        final(state).dirty == old(state).dirty,
        match (*action, outcome) {
            (KeyAction::Jump(_), Ok(())) => final(state).status_message matches Some((m, t)) && t
                == now && m@ == "Jumped to session"@,
            (KeyAction::Jump(_), Err(e)) => final(state).status_message matches Some((m, t)) && t
                == now && m@ == "Jump failed: "@ + e@,
            (KeyAction::Kill { id, name }, Ok(())) => final(state).status_message matches Some(
                (m, t),
            ) && t == now && m@ == "Killed session "@ + name@,
            (KeyAction::Kill { id, name }, Err(e)) => final(state).status_message matches Some(
                (m, t),
            ) && t == now && m@ == "Kill failed: "@ + e@,
            _ => final(state).status_message == old(state).status_message,
        },
{
    match action {
        KeyAction::Jump(_) => {
            let m = match outcome {
                Ok(()) => owned("Jumped to session"),
                Err(e) => owned("Jump failed: ").concat(e.as_str()),
            };
            state.status_message = Some((m, now));
        },
        KeyAction::Kill { id: _, name } => {
            let m = match outcome {
                Ok(()) => owned("Killed session ").concat(name.as_str()),
                Err(e) => owned("Kill failed: ").concat(e.as_str()),
            };
            state.status_message = Some((m, now));
        },
        _ => {},
    }
}

} // verus!
