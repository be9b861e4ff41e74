//! The computations of the dashboard's drawing: layout arithmetic, the
//! shortening of long texts, and the numbers and texts of the panes. The
//! drawing itself is done by the terminal library.
use crate::text::{decimal, decimal_string, owned, push_char};
use crate::tui::state::STATUS_MESSAGE_DURATION_MS;
use vstd::prelude::*;

verus! {

/// A screen rectangle in cells.
#[derive(Debug, Clone, Copy, PartialEq, Eq, Structural)]
pub struct Rect {
    pub x: u16,
    pub y: u16,
    pub width: u16,
    pub height: u16,
}

/// Width of the help and rename modals.
pub const MODAL_INNER_W: u16 = 60;

/// Height of the help modal.
pub const MODAL_INNER_H: u16 = 14;

/// A rectangle of at most `width` x `height` centred in `area` (rounding
/// towards the top left).
pub open spec fn centered(width: u16, height: u16, area: Rect) -> Rect {
    let w = if width <= area.width { width } else { area.width };
    let h = if height <= area.height { height } else { area.height };
    Rect {
        x: (area.x + (area.width - w) / 2) as u16,
        y: (area.y + (area.height - h) / 2) as u16,
        width: w,
        height: h,
    }
}

/// Centre a `width` x `height` box in `area`, shrunk to fit. A rectangle of
/// the terminal library never reaches past the last coordinate.
pub fn centered_rect(width: u16, height: u16, area: Rect) -> (r: Rect)
    requires
        area.x + area.width <= u16::MAX,
        area.y + area.height <= u16::MAX,
    ensures
        r == centered(width, height, area),
        r.x + r.width <= area.x + area.width,
        r.y + r.height <= area.y + area.height,
{
    let w = if width <= area.width {
        width
    } else {
        area.width
    };
    let h = if height <= area.height {
        height
    } else {
        area.height
    };
    let x = area.x + (area.width - w) / 2;
    let y = area.y + (area.height - h) / 2;
    Rect { x, y, width: w, height: h }
}

/// `s` shortened to at most `max` characters: unchanged when it fits,
/// otherwise its first `max - 1` characters and an ellipsis.
pub open spec fn truncated(s: Seq<char>, max: usize) -> Seq<char> {
    if s.len() <= max {
        s
    } else {
        s.take(if max >= 1 { max - 1 } else { 0 }) + "…"@
    }
}

/// Shorten `s` to `max` characters for a column of that width.
pub fn truncate(s: &str, max: usize) -> (r: String)
    ensures
        r@ == truncated(s@, max),
{
    let n = s.unicode_len();
    if n <= max {
        return owned(s);
    }
    let keep: usize = if max >= 1 {
        max - 1
    } else {
        0
    };
    let mut out = owned(s.substring_char(0, keep));
    push_char(&mut out, '…');
    proof {
        reveal_strlit("…");
        assert(s@.subrange(0, keep as int) =~= s@.take(keep as int));
        assert(seq!['…'] =~= "…"@);
    }
    out
}

/// Share of the context window used, in percent (capped at `u32::MAX`);
/// zero unless both counts are known and the total is positive.
pub open spec fn context_percent_of(used: Option<u64>, total: Option<u64>) -> u32 {
    match (used, total) {
        (Some(u), Some(t)) => if t > 0 {
            let scaled: int = if u * 100 > u64::MAX { u64::MAX as int } else { u * 100 };
            if scaled / (t as int) > u32::MAX {
                u32::MAX
            } else {
                (scaled / (t as int)) as u32
            }
        } else {
            0
        },
        _ => 0,
    }
}

/// The context-window percentage shown in the detail pane.
pub fn context_percent(used: Option<u64>, total: Option<u64>) -> (p: u32)
    ensures
        p == context_percent_of(used, total),
{
    match (used, total) {
        (Some(u), Some(t)) => {
            if t > 0 {
                let scaled: u64 = if u > u64::MAX / 100 {
                    u64::MAX
                } else {
                    u * 100
                };
                let q = scaled / t;
                if q > 0xffff_ffffu64 {
                    0xffff_ffffu32
                } else {
                    q as u32
                }
            } else {
                0
            }
        },
        _ => 0,
    }
}

/// The token line of the detail pane: `"<used>/<total> (<pct>%)"`, or
/// `"n/a"` unless both counts are known.
pub fn tokens_text(used: Option<u64>, total: Option<u64>, pct: u32) -> (r: String)
    ensures
        r@ == match (used, total) {
            (Some(u), Some(t)) => decimal(u as nat) + "/"@ + decimal(t as nat) + " ("@ + decimal(
                pct as nat,
            ) + "%)"@,
            _ => "n/a"@,
        },
{
    proof {
        reveal_strlit("/");
        reveal_strlit(" (");
        reveal_strlit("%)");
        reveal_strlit("n/a");
    }
    match (used, total) {
        (Some(u), Some(t)) => decimal_string(u).concat("/").concat(decimal_string(t).as_str()).concat(
            " (",
        ).concat(decimal_string(pct as u64).as_str()).concat("%)"),
        _ => owned("n/a"),
    }
}

/// Height of the new-session modal: six lines around the recent
/// directories, at most the screen height less two.
pub open spec fn new_modal_height_of(recents: usize, area_height: u16) -> u16 {
    let limit: int = if area_height >= 2 { area_height - 2 } else { 0 };
    if recents + 6 > u16::MAX {
        0
    } else if recents + 6 <= limit {
        (recents + 6) as u16
    } else {
        limit as u16
    }
}

/// The new-session modal's height.
pub fn new_modal_height(recents: usize, area_height: u16) -> (h: u16)
    ensures
        h == new_modal_height_of(recents, area_height),
{
    let limit: u16 = if area_height >= 2 {
        area_height - 2
    } else {
        0
    };
    if recents > 0xffff - 6 {
        0
    } else {
        let n: u16 = recents as u16 + 6;
        if n <= limit {
            n
        } else {
            limit
        }
    }
}

/// The row the session list highlights: the selection, kept inside the
/// list.
pub fn list_selection(selected: usize, len: usize) -> (r: usize)
    ensures
        r == if len == 0 {
            0
        } else if selected <= len - 1 {
            selected as int
        } else {
            len - 1
        },
{
    let last = if len >= 1 {
        len - 1
    } else {
        0
    };
    if selected <= last {
        selected
    } else {
        last
    }
}

/// The status bar: the transient message while it is less than three
/// seconds old at `now`, a single space otherwise.
pub fn status_text(message: &Option<(String, u64)>, now: u64) -> (r: String)
    ensures
        r@ == match message {
            Some((m, t)) => if now >= *t && now - *t < STATUS_MESSAGE_DURATION_MS || now < *t {
                m@
            } else {
                " "@
            },
            None => " "@,
        },
{
    proof {
        reveal_strlit(" ");
    }
    match message {
        Some((m, t)) => {
            let age = if now >= *t {
                now - *t
            } else {
                0
            };
            if age < STATUS_MESSAGE_DURATION_MS {
                owned(m.as_str())
            } else {
                owned(" ")
            }
        },
        None => owned(" "),
    }
}

/// Whether a row highlighted until `until` is still highlighted at `now`
/// (at least a millisecond left).
pub fn is_flashing(until: Option<u64>, now: u64) -> (r: bool)
    ensures
        r == (until matches Some(t) && t > now),
{
    match until {
        Some(t) => t > now,
        None => false,
    }
}

} // verus!
