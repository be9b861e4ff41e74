//! Records of the `plugins` and `session_events` tables and the decoding of
//! the text columns of the `sessions` table.
use crate::ids::{
    format_rfc3339, format_uuid, four_digit_instant, parse_rfc3339, parse_uuid, rfc3339_instant,
    rfc3339_text, uuid_from_text, uuid_text,
};
use crate::json::{JsonNumber, JsonValue};
use crate::protocol::{
    lemma_agent_wire_roundtrip, lemma_status_wire_roundtrip, AgentType, Session, SessionSource,
    SessionStatus, Timestamp,
};
use crate::text::{owned, push_char, str_eq};
use vstd::prelude::*;

verus! {

/// Failures of the repositories.
#[derive(Debug, Clone, PartialEq)]
pub enum RepoError {
    /// SQLite failed (its message).
    Sqlite(String),
    /// No session has this id.
    NotFound(u128),
    /// A status column holds an unknown status.
    InvalidStatus(String),
}

/// The columns of one `sessions` row, as SQLite hands them out (JSON
/// metadata already parsed, `null` where it does not parse).
#[derive(Debug, PartialEq)]
pub struct SessionRow {
    pub id: String,
    pub agent_type: String,
    pub working_dir: String,
    pub tmux_session: Option<String>,
    pub tmux_pane_id: Option<String>,
    pub display_name: String,
    pub status: String,
    pub current_task: Option<String>,
    pub model: Option<String>,
    pub context_used_tokens: Option<u64>,
    pub context_total_tokens: Option<u64>,
    pub cost_usd: Option<JsonNumber>,
    pub source: String,
    pub created_at: String,
    pub last_event_at: Option<String>,
    pub finished_at: Option<String>,
    pub metadata: JsonValue,
}

/// A column that does not decode: its index and what is wrong with it.
#[derive(Debug, PartialEq)]
pub struct ColumnError {
    pub column: usize,
    pub message: String,
}

/// `s` with every leading and trailing `"` removed (`trim_matches('"')`).
pub open spec fn trim_quotes(s: Seq<char>) -> Seq<char>
    decreases s.len(),
{
    if s.len() > 0 && s[0] == '"' {
        trim_quotes(s.drop_first())
    } else if s.len() > 0 && s.last() == '"' {
        trim_quotes(s.drop_last())
    } else {
        s
    }
}

/// The string that `serde_json::from_str::<String>` reads from `s`; `None`
/// where `s` is not one JSON string.
pub uninterp spec fn json_string_of(s: Seq<char>) -> Option<Seq<char>>;

/// Read one JSON string (`serde_json::from_str::<String>`).
#[verifier::external_body]
fn parse_json_string(s: &str) -> (r: Option<String>)
    ensures
        r is Some <==> json_string_of(s@) is Some,
        r matches Some(v) ==> json_string_of(s@) == Some(v@),
{
    serde_json::from_str::<String>(s).ok()
}

/// The source a JSON string value names (`"cli"` or `"discovered"`).
pub open spec fn source_named(v: Seq<char>) -> Option<SessionSource> {
    if v == "cli"@ {
        Some(SessionSource::Cli)
    } else if v == "discovered"@ {
        Some(SessionSource::Discovered)
    } else {
        None
    }
}

/// The session source named by a `source` column: the column with every
/// surrounding `"` removed, put back between one pair of `"` and read as a
/// JSON string. Where the bare text is already a source's name it needs no
/// JSON reading.
pub open spec fn source_from_column(s: Seq<char>) -> Option<SessionSource> {
    let t = trim_quotes(s);
    match source_named(t) {
        Some(src) => Some(src),
        None => match json_string_of(seq!['"'] + t + seq!['"']) {
            Some(v) => source_named(v),
            None => None,
        },
    }
}

fn trim_quotes_exec(s: &str) -> (r: String)
    ensures
        r@ == trim_quotes(s@),
{
    let n = s.unicode_len();
    let mut i: usize = 0;
    let mut j: usize = n;
    proof {
        assert(s@.subrange(0, n as int) =~= s@);
    }
    while i < j && s.get_char(i) == '"'
        invariant
            n == s@.len(),
            i <= j == n,
            trim_quotes(s@) == trim_quotes(s@.subrange(i as int, j as int)),
        decreases j - i,
    {
        proof {
            assert(s@.subrange(i as int, j as int).drop_first() =~= s@.subrange(i + 1, j as int));
        }
        i = i + 1;
    }
    while i < j && s.get_char(j - 1) == '"'
        invariant
            n == s@.len(),
            i <= j <= n,
            trim_quotes(s@) == trim_quotes(s@.subrange(i as int, j as int)),
            i < j ==> s@[i as int] != '"',
        decreases j - i,
    {
        proof {
            let t = s@.subrange(i as int, j as int);
            assert(t.drop_last() =~= s@.subrange(i as int, j - 1));
            assert(t[0] == s@[i as int]);
        }
        j = j - 1;
    }
    proof {
        let t = s@.subrange(i as int, j as int);
        if t.len() > 0 {
            assert(t[0] == s@[i as int]);
            assert(t.last() == s@[j - 1]);
        }
    }
    owned(s.substring_char(i, j))
}

/// What a `sessions` row decodes to: the first column (in the order id,
/// agent_type, status, source, created_at, last_event_at, finished_at) that
/// does not decode gives the error, by its index.
pub open spec fn row_decodes(row: SessionRow, r: Result<Session, ColumnError>) -> bool {
    match uuid_from_text(row.id@) {
        None => r matches Err(e) && e.column == 0,
        Some(id) => match AgentType::from_wire_spec(row.agent_type@) {
            None => r matches Err(e) && e.column == 1,
            Some(agent) => match SessionStatus::from_wire_spec(row.status@) {
                None => r matches Err(e) && e.column == 6,
                Some(status) => match source_from_column(row.source@) {
                    None => r matches Err(e) && e.column == 12,
                    Some(source) => match rfc3339_instant(row.created_at@) {
                        None => r matches Err(e) && e.column == 13,
                        Some(created) => match optional_instant(row.last_event_at) {
                            Err(()) => r matches Err(e) && e.column == 14,
                            Ok(last) => match optional_instant(row.finished_at) {
                                Err(()) => r matches Err(e) && e.column == 15,
                                Ok(finished) => r == Ok::<Session, ColumnError>(
                                    Session {
                                        id,
                                        agent_type: agent,
                                        working_dir: row.working_dir,
                                        tmux_session: row.tmux_session,
                                        tmux_pane_id: row.tmux_pane_id,
                                        display_name: row.display_name,
                                        status,
                                        current_task: row.current_task,
                                        model: row.model,
                                        context_used_tokens: row.context_used_tokens,
                                        context_total_tokens: row.context_total_tokens,
                                        cost_usd: row.cost_usd,
                                        source,
                                        created_at: created,
                                        last_event_at: last,
                                        finished_at: finished,
                                        metadata: row.metadata,
                                    },
                                ),
                            },
                        },
                    },
                },
            },
        },
    }
}

/// An optional RFC 3339 column: `Ok(None)` when NULL, `Err` when it does
/// not parse.
pub open spec fn optional_instant(c: Option<String>) -> Result<Option<Timestamp>, ()> {
    match c {
        None => Ok(None),
        Some(t) => match rfc3339_instant(t@) {
            Some(i) => Ok(Some(i)),
            None => Err(()),
        },
    }
}

fn decode_optional_instant(c: &Option<String>) -> (r: Result<Option<Timestamp>, ()>)
    ensures
        r == optional_instant(*c),
{
    match c {
        None => Ok(None),
        Some(t) => match parse_rfc3339(t.as_str()) {
            Some(i) => Ok(Some(i)),
            None => Err(()),
        },
    }
}

fn column_error(column: usize, message: &str) -> (e: ColumnError)
    ensures
        e.column == column,
        e.message@ == message@,
{
    ColumnError { column, message: owned(message) }
}

fn source_of(text: &str) -> (r: Option<SessionSource>)
    ensures
        r == source_from_column(text@),
{
    let t = trim_quotes_exec(text);
    match named_source(t.as_str()) {
        Some(src) => Some(src),
        None => {
            let quoted = owned("\"").concat(t.as_str()).concat("\"");
            proof {
                reveal_strlit("\"");
                assert(quoted@ =~= seq!['"'] + t@ + seq!['"']);
            }
            match parse_json_string(quoted.as_str()) {
                Some(v) => named_source(v.as_str()),
                None => None,
            }
        },
    }
}

fn named_source(v: &str) -> (r: Option<SessionSource>)
    ensures
        r == source_named(v@),
{
    if str_eq(v, "cli") {
        Some(SessionSource::Cli)
    } else if str_eq(v, "discovered") {
        Some(SessionSource::Discovered)
    } else {
        None
    }
}

/// Decode one `sessions` row.
pub fn session_from_row(row: SessionRow) -> (r: Result<Session, ColumnError>)
    ensures
        row_decodes(row, r),
{
    let id = match parse_uuid(row.id.as_str()) {
        Some(id) => id,
        None => return Err(column_error(0, "invalid uuid")),
    };
    let agent_type = match AgentType::from_wire(row.agent_type.as_str()) {
        Some(a) => a,
        None => return Err(column_error(1, "unknown agent_type")),
    };
    let status = match SessionStatus::from_wire(row.status.as_str()) {
        Some(s) => s,
        None => return Err(column_error(6, "invalid status")),
    };
    let source = match source_of(row.source.as_str()) {
        Some(s) => s,
        None => return Err(column_error(12, "invalid source")),
    };
    let created_at = match parse_rfc3339(row.created_at.as_str()) {
        Some(t) => t,
        None => return Err(column_error(13, "invalid created_at")),
    };
    let last_event_at = match decode_optional_instant(&row.last_event_at) {
        Ok(t) => t,
        Err(()) => return Err(column_error(14, "invalid last_event_at")),
    };
    let finished_at = match decode_optional_instant(&row.finished_at) {
        Ok(t) => t,
        Err(()) => return Err(column_error(15, "invalid finished_at")),
    };
    Ok(
        Session {
            id,
            agent_type,
            working_dir: row.working_dir,
            tmux_session: row.tmux_session,
            tmux_pane_id: row.tmux_pane_id,
            display_name: row.display_name,
            status,
            current_task: row.current_task,
            model: row.model,
            context_used_tokens: row.context_used_tokens,
            context_total_tokens: row.context_total_tokens,
            cost_usd: row.cost_usd,
            source,
            created_at,
            last_event_at,
            finished_at,
            metadata: row.metadata,
        },
    )
}

/// The text of the `source` column: the source's wire name as a JSON string
/// (`"cli"` with its quotes).
pub open spec fn source_column(src: SessionSource) -> Seq<char> {
    seq!['"'] + src.wire_name() + seq!['"']
}

/// An optional instant column holds the RFC 3339 text of the instant.
pub open spec fn instant_column(t: Option<Timestamp>, c: Option<String>) -> bool {
    match (t, c) {
        (None, None) => true,
        (Some(t), Some(c)) => c@ == rfc3339_text(t),
        _ => false,
    }
}

/// The columns `row` that an insert writes for session `s`.
pub open spec fn row_of(s: Session, row: SessionRow) -> bool {
    &&& row.id@ == uuid_text(s.id)
    &&& row.agent_type@ == s.agent_type.wire_name()
    &&& row.working_dir == s.working_dir
    &&& row.tmux_session == s.tmux_session
    &&& row.tmux_pane_id == s.tmux_pane_id
    &&& row.display_name == s.display_name
    &&& row.status@ == s.status.wire_name()
    &&& row.current_task == s.current_task
    &&& row.model == s.model
    &&& row.context_used_tokens == s.context_used_tokens
    &&& row.context_total_tokens == s.context_total_tokens
    &&& row.cost_usd == s.cost_usd
    &&& row.source@ == source_column(s.source)
    &&& row.created_at@ == rfc3339_text(s.created_at)
    &&& instant_column(s.last_event_at, row.last_event_at)
    &&& instant_column(s.finished_at, row.finished_at)
    &&& row.metadata == s.metadata
}

/// Every instant of the session lies in years 0 to 9999.
pub open spec fn four_digit_session(s: Session) -> bool {
    &&& four_digit_instant(s.created_at)
    &&& (s.last_event_at matches Some(t) ==> four_digit_instant(t))
    &&& (s.finished_at matches Some(t) ==> four_digit_instant(t))
}

fn instant_text(t: Option<Timestamp>) -> (r: Option<Option<String>>)
    ensures
        r matches Some(c) ==> instant_column(t, c),
        r matches Some(c) ==> (t is Some && four_digit_instant(t->0) ==> (c is Some
            && rfc3339_instant(c->0@) == Some(t->0))),
        (t matches Some(x) ==> four_digit_instant(x)) ==> r is Some,
{
    match t {
        None => Some(None),
        Some(x) => match format_rfc3339(x) {
            Some(text) => Some(Some(text)),
            None => None,
        },
    }
}

/// The columns an insert writes for a session (`None` when one of its
/// instants has no RFC 3339 text). What is written reads back as the same
/// session when its instants lie in years 0 to 9999.
pub fn session_to_row(s: Session) -> (r: Option<SessionRow>)
    ensures
        r matches Some(row) ==> row_of(s, row),
        four_digit_session(s) ==> (r is Some && row_decodes(r->0, Ok(s))),
{
    let ghost orig = s;
    let created = match format_rfc3339(s.created_at) {
        Some(t) => t,
        None => return None,
    };
    let last = match instant_text(s.last_event_at) {
        Some(c) => c,
        None => return None,
    };
    let finished = match instant_text(s.finished_at) {
        Some(c) => c,
        None => return None,
    };
    let id = format_uuid(s.id);
    let agent = owned(s.agent_type.as_str());
    let status = owned(s.status.as_str());
    let mut source = String::new();
    push_char(&mut source, '"');
    let source = source.concat(s.source.as_str());
    let mut source = source;
    push_char(&mut source, '"');
    let row = SessionRow {
        id,
        agent_type: agent,
        working_dir: s.working_dir,
        tmux_session: s.tmux_session,
        tmux_pane_id: s.tmux_pane_id,
        display_name: s.display_name,
        status,
        current_task: s.current_task,
        model: s.model,
        context_used_tokens: s.context_used_tokens,
        context_total_tokens: s.context_total_tokens,
        cost_usd: s.cost_usd,
        source,
        created_at: created,
        last_event_at: last,
        finished_at: finished,
        metadata: s.metadata,
    };
    proof {
        assert(row.source@ =~= source_column(orig.source));
        if four_digit_session(orig) {
            lemma_agent_wire_roundtrip(orig.agent_type);
            lemma_status_wire_roundtrip(orig.status);
            lemma_source_roundtrip(orig.source);
        }
    }
    Some(row)
}

/// A source column reads back as the source it was written from.
pub proof fn lemma_source_roundtrip(src: SessionSource)
    ensures
        source_from_column(source_column(src)) == Some(src),
{
    reveal_strlit("cli");
    reveal_strlit("discovered");
    let w = src.wire_name();
    let c = source_column(src);
    assert(c[0] == '"');
    assert(c.drop_first() =~= w + seq!['"']);
    assert((w + seq!['"'])[0] == w[0]);
    assert(w[0] != '"');
    assert((w + seq!['"']).last() == '"');
    assert((w + seq!['"']).drop_last() =~= w);
    assert(w.len() > 0 && w[0] != '"' && w.last() != '"');
    assert(trim_quotes(w) == w);
    assert(trim_quotes(w + seq!['"']) == w);
    assert(trim_quotes(c) == w);
    assert("cli"@ != "discovered"@) by {
        assert("cli"@.len() != "discovered"@.len());
    }
}

/// The session is not finished.
pub open spec fn not_finished() -> spec_fn(Session) -> bool {
    |s: Session| !s.status.spec_is_terminal()
}

/// The sessions that are not finished, in their order (`list_non_finished`).
pub fn non_finished(sessions: Vec<Session>) -> (r: Vec<Session>)
    ensures
        r@ == sessions@.filter(not_finished()),
{
    let ghost orig = sessions@;
    let mut rest = sessions;
    let mut out: Vec<Session> = Vec::new();
    let n = rest.len();
    let mut k: usize = 0;
    while k < n
        invariant
            n == orig.len(),
            k <= n,
            rest@ == orig.skip(k as int),
            out@ == orig.take(k as int).filter(not_finished()),
        decreases n - k,
    {
        let s = rest.remove(0);
        proof {
            assert(s == orig[k as int]);
            assert(orig.take(k + 1) =~= orig.take(k as int).push(s));
            orig.take(k as int).lemma_filter_push(s, not_finished());
            assert(rest@ =~= orig.skip(k + 1));
        }
        if !s.status.is_terminal() {
            out.push(s);
        }
        k = k + 1;
    }
    proof {
        assert(orig.take(n as int) =~= orig);
    }
    out
}

/// One row of the `plugins` table.
#[derive(Debug, Clone, PartialEq)]
pub struct PluginRecord {
    pub name: String,
    pub binary: String,
    pub socket_name: String,
    pub autostart: bool,
    pub last_connected_at: Option<String>,
    pub last_error: Option<String>,
}

/// One row of the `session_events` table.
#[derive(Debug, PartialEq)]
pub struct EventRecord {
    pub id: i64,
    pub session_id: u128,
    pub kind: String,
    pub payload: JsonValue,
    pub created_at: String,
}

/// Decode one `session_events` row: its `session_id` column (index 1) must
/// hold a UUID; a payload that did not parse as JSON is already `null`.
pub fn event_from_row(
    id: i64,
    session_id: &str,
    kind: String,
    payload: JsonValue,
    created_at: String,
) -> (r: Result<EventRecord, ColumnError>)
    ensures
        r is Ok <==> uuid_from_text(session_id@) is Some,
        r matches Ok(e) ==> {
            &&& Some(e.session_id) == uuid_from_text(session_id@)
            &&& e.id == id
            &&& e.kind@ == kind@
            &&& e.payload == payload
            &&& e.created_at@ == created_at@
        },
        r matches Err(e) ==> e.column == 1 && e.message@ == "invalid session id"@,
{
    match parse_uuid(session_id) {
        Some(sid) => Ok(EventRecord { id, session_id: sid, kind, payload, created_at }),
        None => Err(column_error(1, "invalid session id")),
    }
}

} // verus!
