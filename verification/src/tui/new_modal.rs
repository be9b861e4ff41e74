//! New-session modal: recent working directories, a filter over them, and
//! commit or cancel.
use crate::json::JsonValue;
use crate::protocol::Timestamp;
use crate::text::{contains, lowercase, owned, pop_char, push_char, seq_contains, to_lowercase};
use crate::tui::input::Key;
use crate::tui::recents::{candidates_of, extract_recents, offers};
use crate::tui::state::NewModal;
use vstd::prelude::*;

verus! {

/// What a key does to the new-session modal.
#[derive(Debug, PartialEq)]
pub enum NewModalOutcome {
    /// Keep the modal open with its updated query.
    Stay,
    /// Close the modal without creating a session.
    Cancel,
    /// Close the modal and create a session in the given working directory.
    Commit(String),
}

/// A recent directory `path` is shown under `query`: the query is empty
/// once lowercased, or occurs in the lowercased path.
pub open spec fn recent_matches(query: Seq<char>, path: Seq<char>) -> bool {
    lowercase(query).len() == 0 || seq_contains(lowercase(path), lowercase(query))
}

/// The filter of a modal's query as a predicate on recents.
pub open spec fn shown_under(query: Seq<char>) -> spec_fn((String, Timestamp)) -> bool {
    |e: (String, Timestamp)| recent_matches(query, e.0@)
}

/// The recents that match the modal's query (case-insensitive substring),
/// in their order.
pub fn filtered(modal: &NewModal) -> (r: Vec<(String, Timestamp)>)
    ensures
        r@ == modal.recents@.filter(shown_under(modal.query@)),
{
    let q = to_lowercase(modal.query.as_str());
    let q_empty = q.as_str().unicode_len() == 0;
    let mut out: Vec<(String, Timestamp)> = Vec::new();
    let n = modal.recents.len();
    let mut i: usize = 0;
    while i < n
        invariant
            n == modal.recents@.len(),
            i <= n,
            q@ == lowercase(modal.query@),
            q_empty == (q@.len() == 0),
            out@ == modal.recents@.take(i as int).filter(shown_under(modal.query@)),
        decreases n - i,
    {
        let e = &modal.recents[i];
        let keep = q_empty || contains(to_lowercase(e.0.as_str()).as_str(), q.as_str());
        proof {
            assert(modal.recents@.take(i + 1) =~= modal.recents@.take(i as int).push(*e));
            modal.recents@.take(i as int).lemma_filter_push(*e, shown_under(modal.query@));
        }
        if keep {
            out.push((e.0.clone(), e.1));
        }
        i = i + 1;
    }
    proof {
        assert(modal.recents@.take(n as int) =~= modal.recents@);
    }
    out
}

/// A modal with an empty query over the given recents.
pub fn open_with(recents: Vec<(String, Timestamp)>) -> (m: NewModal)
    ensures
        m.query@.len() == 0,
        m.recents@ == recents@,
{
    NewModal { query: String::new(), recents }
}

/// Apply one key to the modal. Enter commits the first shown recent, or
/// `.` when none is shown.
pub fn apply_key(modal: &mut NewModal, key: Key) -> (o: NewModalOutcome)
    ensures
        final(modal).recents@ == old(modal).recents@,
        match key {
            Key::Esc => o == NewModalOutcome::Cancel && final(modal).query@ == old(modal).query@,
            Key::Enter => {
                let shown = old(modal).recents@.filter(shown_under(old(modal).query@));
                &&& final(modal).query@ == old(modal).query@
                &&& o matches NewModalOutcome::Commit(p) && if shown.len() > 0 {
                    p@ == shown[0].0@
                } else {
                    p@ == "."@
                }
            },
            Key::Backspace => o == NewModalOutcome::Stay && final(modal).query@ == (if old(
                modal,
            ).query@.len() > 0 {
                old(modal).query@.drop_last()
            } else {
                old(modal).query@
            }),
            Key::Char(c) => o == NewModalOutcome::Stay && final(modal).query@ == old(
                modal,
            ).query@.push(c),
            _ => o == NewModalOutcome::Stay && final(modal).query@ == old(modal).query@,
        },
{
    match key {
        Key::Esc => NewModalOutcome::Cancel,
        Key::Enter => {
            let shown = filtered(modal);
            if shown.len() > 0 {
                NewModalOutcome::Commit(shown[0].0.clone())
            } else {
                NewModalOutcome::Commit(owned("."))
            }
        },
        Key::Backspace => {
            pop_char(&mut modal.query);
            NewModalOutcome::Stay
        },
        Key::Char(c) => {
            push_char(&mut modal.query, c);
            NewModalOutcome::Stay
        },
        _ => NewModalOutcome::Stay,
    }
}

/// The modal as it opens after asking the daemon for the live sessions: the
/// recents drawn from the answer, or none when the call failed.
pub fn open_from<E>(answer: Result<JsonValue, E>) -> (m: NewModal)
    ensures
        m.query@.len() == 0,
        match answer {
            Ok(v) => offers(candidates_of(v), m.recents@),
            Err(_) => m.recents@.len() == 0,
        },
{
    match answer {
        Ok(v) => open_with(extract_recents(&v)),
        Err(_) => open_with(Vec::new()),
    }
}

} // verus!
