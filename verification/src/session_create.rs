//! Creating a session end to end, as a sequence of steps between which the
//! caller does the outside work: validate the name and build the row,
//! insert it, create the tmux session, bind the pane to the row, and read the
//! row back. A failure after the insert rolls back: the tmux session is
//! killed (when it was created) and the row is deleted.
use crate::db::repo::RepoError;
use crate::handlers::{fresh_session, is_fresh_session};
use crate::json::JsonValue;
use crate::protocol::{AgentType, Session, SessionSource, Timestamp};
use crate::ids::{new_uuid_v7, utc_now};
use crate::text::owned;
use crate::tmux::{validate_session_name, valid_session_name, TmuxError};
use vstd::prelude::*;

verus! {

/// Failures of creating a session.
#[derive(Debug, PartialEq)]
pub enum CreateError {
    /// The display name breaks the tmux naming rule: the name.
    InvalidName(String),
    /// File-system failure: the system error's text.
    Io(String),
    /// tmux failed.
    Tmux(TmuxError),
    /// The state database failed.
    Db(RepoError),
    /// The row vanished between the bind and the read-back.
    Internal(String),
}

/// The name a session gets: the display name, or `session` when none is
/// given.
pub open spec fn chosen_name(display_name: Option<&str>) -> Seq<char> {
    match display_name {
        Some(n) => n@,
        None => "session"@,
    }
}

/// A creation in progress: the session's id, its (validated) name, which is
/// also its tmux session's name, and its working directory.
#[derive(Debug, PartialEq)]
pub struct Creating {
    pub id: u128,
    pub name: String,
    pub working_dir: String,
}

/// A creation whose tmux session exists: what [`Creating`] holds plus the
/// pane id.
#[derive(Debug, PartialEq)]
pub struct Spawned {
    pub id: u128,
    pub name: String,
    pub working_dir: String,
    pub pane: String,
}

/// The undoing of a failed creation, in order: kill the tmux session named
/// here (if any) and delete the row with this id, ignoring the outcome of
/// both; then fail with `error`.
#[derive(Debug, PartialEq)]
pub struct Rollback {
    pub kill_tmux: Option<String>,
    pub delete_row: u128,
    pub error: CreateError,
}

/// First step: choose and check the name and build the row to insert, with
/// the id and creation time the caller drew.
pub fn begin(
    agent: AgentType,
    working_dir: &str,
    display_name: Option<&str>,
    id: u128,
    now: Timestamp,
) -> (r: Result<(Creating, Session), CreateError>)
    ensures
        r is Ok <==> valid_session_name(chosen_name(display_name)),
        r matches Err(e) ==> e matches CreateError::InvalidName(n) && n@ == chosen_name(
            display_name,
        ),
        r matches Ok((c, s)) ==> {
            &&& c.id == id
            &&& c.name@ == chosen_name(display_name)
            &&& c.working_dir@ == working_dir@
            &&& is_fresh_session(
                s,
                id,
                agent,
                working_dir@,
                chosen_name(display_name),
                SessionSource::Cli,
                now,
            )
            &&& s.metadata matches JsonValue::Object(f) && f@.len() == 0
        },
{
    let name: &str = match display_name {
        Some(n) => n,
        None => "session",
    };
    proof {
        reveal_strlit("session");
    }
    if validate_session_name(name).is_err() {
        return Err(CreateError::InvalidName(owned(name)));
    }
    let session = fresh_session(
        id,
        agent,
        owned(working_dir),
        owned(name),
        SessionSource::Cli,
        now,
        JsonValue::Object(Vec::new()),
    );
    Ok((Creating { id, name: owned(name), working_dir: owned(working_dir) }, session))
}

/// First step with a freshly drawn version-7 id and the current time as the
/// session's id and creation time: `begin` for them.
pub fn begin_now(agent: AgentType, working_dir: &str, display_name: Option<&str>) -> (r: Result<
    (Creating, Session),
    CreateError,
>)
    ensures
        r is Ok <==> valid_session_name(chosen_name(display_name)),
        r matches Err(e) ==> e matches CreateError::InvalidName(n) && n@ == chosen_name(
            display_name,
        ),
        r matches Ok((c, s)) ==> exists|now: Timestamp|
            {
                &&& (c.id >> 76u128) & 0xfu128 == 7
                &&& c.name@ == chosen_name(display_name)
                &&& c.working_dir@ == working_dir@
                &&& #[trigger] is_fresh_session(
                    s,
                    c.id,
                    agent,
                    working_dir@,
                    chosen_name(display_name),
                    SessionSource::Cli,
                    now,
                )
                &&& s.metadata matches JsonValue::Object(f) && f@.len() == 0
            },
{
    let id = new_uuid_v7();
    let now = utc_now();
    begin(agent, working_dir, display_name, id, now)
}

/// After the insert: on success the tmux session `c.name` is created next
/// (in `c.working_dir`); a failed insert fails the creation, with nothing to
/// undo.
pub fn inserted(c: Creating, r: Result<(), RepoError>) -> (next: Result<Creating, CreateError>)
    ensures
        match r {
            Ok(()) => next == Ok::<Creating, CreateError>(c),
            Err(e) => next == Err::<Creating, CreateError>(CreateError::Db(e)),
        },
{
    match r {
        Ok(()) => Ok(c),
        Err(e) => Err(CreateError::Db(e)),
    }
}

/// After creating the tmux session: on success the pane is bound to the row
/// next; on failure the row is deleted and the creation fails with the tmux
/// error.
pub fn spawned(c: Creating, r: Result<String, TmuxError>) -> (next: Result<Spawned, Rollback>)
    ensures
        match r {
            Ok(pane) => next == Ok::<Spawned, Rollback>(
                Spawned { id: c.id, name: c.name, working_dir: c.working_dir, pane },
            ),
            Err(e) => next == Err::<Spawned, Rollback>(
                Rollback { kill_tmux: None, delete_row: c.id, error: CreateError::Tmux(e) },
            ),
        },
{
    match r {
        Ok(pane) => Ok(Spawned { id: c.id, name: c.name, working_dir: c.working_dir, pane }),
        Err(e) => Err(Rollback { kill_tmux: None, delete_row: c.id, error: CreateError::Tmux(e) }),
    }
}

/// After binding the pane to the row: on success the row is read back
/// next; on failure the tmux session is killed, the row deleted, and the
/// creation fails with the database error.
pub fn bound(s: Spawned, r: Result<(), RepoError>) -> (next: Result<Spawned, Rollback>)
    ensures
        match r {
            Ok(()) => next == Ok::<Spawned, Rollback>(s),
            Err(e) => next == Err::<Spawned, Rollback>(
                Rollback { kill_tmux: Some(s.name), delete_row: s.id, error: CreateError::Db(e) },
            ),
        },
{
    match r {
        Ok(()) => Ok(s),
        Err(e) => Err(Rollback { kill_tmux: Some(s.name), delete_row: s.id, error: CreateError::Db(e) }),
    }
}

/// Last step, after reading the row back: the row with its tmux session and
/// pane set. A failed read (a database error) or a vanished row (an
/// internal error) is rolled back like the steps before: the tmux session
/// is killed and the row deleted.
pub fn reloaded(s: Spawned, r: Result<Option<Session>, RepoError>) -> (out: Result<
    Session,
    Rollback,
>)
    ensures
        match r {
            Err(e) => out == Err::<Session, Rollback>(
                Rollback { kill_tmux: Some(s.name), delete_row: s.id, error: CreateError::Db(e) },
            ),
            Ok(None) => out matches Err(Rollback { kill_tmux: Some(k), delete_row, error: CreateError::Internal(m) })
                && k == s.name && delete_row == s.id && m@ == "session disappeared after update_tmux"@,
            Ok(Some(row)) => out == Ok::<Session, Rollback>(
                Session { tmux_session: Some(s.name), tmux_pane_id: Some(s.pane), ..row },
            ),
        },
{
    match r {
        Err(e) => Err(Rollback { kill_tmux: Some(s.name), delete_row: s.id, error: CreateError::Db(e) }),
        Ok(None) => {
            let m = owned("session disappeared after update_tmux");
            proof {
                reveal_strlit("session disappeared after update_tmux");
            }
            Err(Rollback { kill_tmux: Some(s.name), delete_row: s.id, error: CreateError::Internal(m) })
        },
        Ok(Some(row)) => {
            let mut updated = row;
            updated.tmux_session = Some(s.name);
            updated.tmux_pane_id = Some(s.pane);
            Ok(updated)
        },
    }
}

} // verus!
