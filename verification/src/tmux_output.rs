//! Reading what the `tmux` binary prints: the pane list of
//! `tmux list-panes -a -F '#{session_name} #{pane_id} #{pane_current_path}'`
//! and the version line of `tmux -V`.
use crate::text::{is_white_space, owned, white_space};
use crate::tmux::Pane;
use vstd::prelude::*;

verus! {

/// The first index at or after `from` where `s` holds `c`; `s.len()` when
/// there is none.
pub open spec fn next_index(s: Seq<char>, c: char, from: int) -> int
    decreases s.len() - from,
{
    if from < 0 || from >= s.len() {
        s.len() as int
    } else if s[from] == c {
        from
    } else {
        next_index(s, c, from + 1)
    }
}

/// `next_index` lies between `from` and the end, and skips no `c`.
pub proof fn lemma_next_index(s: Seq<char>, c: char, from: int)
    requires
        0 <= from,
    ensures
        from <= s.len() ==> from <= next_index(s, c, from) <= s.len(),
        from > s.len() ==> next_index(s, c, from) == s.len(),
        forall|j: int| from <= j < next_index(s, c, from) ==> s[j] != c,
        next_index(s, c, from) < s.len() ==> s[next_index(s, c, from)] == c,
    decreases s.len() - from,
{
    if from < s.len() && s[from] != c {
        lemma_next_index(s, c, from + 1);
    }
}

fn find_from(s: &str, n: usize, c: char, from: usize) -> (k: usize)
    requires
        n == s@.len(),
        from <= n,
    ensures
        k == next_index(s@, c, from as int),
{
    let mut k = from;
    while k < n && s.get_char(k) != c
        invariant
            n == s@.len(),
            from <= k <= n,
            next_index(s@, c, from as int) == next_index(s@, c, k as int),
        decreases n - k,
    {
        k = k + 1;
    }
    k
}

/// A line as `str::lines` yields it: a `\r` just before the `\n` that ended
/// the line is dropped.
pub open spec fn strip_cr(raw: Seq<char>, ended_by_newline: bool) -> Seq<char> {
    if ended_by_newline && raw.len() > 0 && raw.last() == '\r' {
        raw.drop_last()
    } else {
        raw
    }
}

/// The lines of `s` from index `pos` on (`str::lines`): split at `\n`, a
/// final line ending is optional.
pub open spec fn lines_from(s: Seq<char>, pos: int) -> Seq<Seq<char>>
    decreases s.len() + 1 - pos,
{
    if pos < 0 || pos >= s.len() {
        Seq::empty()
    } else {
        let k = next_index(s, '\n', pos);
        proof {
            lemma_next_index(s, '\n', pos);
        }
        seq![strip_cr(s.subrange(pos, k), k < s.len())] + lines_from(s, k + 1)
    }
}

/// The three fields of a pane line (`splitn(3, ' ')`): session name, pane id
/// and the rest (the working directory, spaces included); `None` when the
/// line has fewer than two spaces.
pub open spec fn pane_fields(l: Seq<char>) -> Option<(Seq<char>, Seq<char>, Seq<char>)> {
    let a = next_index(l, ' ', 0);
    if a >= l.len() {
        None
    } else {
        let b = next_index(l, ' ', a + 1);
        if b >= l.len() {
            None
        } else {
            Some((l.subrange(0, a), l.subrange(a + 1, b), l.subrange(b + 1, l.len() as int)))
        }
    }
}

/// The fields of every line that has them, in order.
pub open spec fn panes_of(lines: Seq<Seq<char>>) -> Seq<(Seq<char>, Seq<char>, Seq<char>)>
    decreases lines.len(),
{
    if lines.len() == 0 {
        Seq::empty()
    } else {
        match pane_fields(lines[0]) {
            Some(t) => seq![t] + panes_of(lines.drop_first()),
            None => panes_of(lines.drop_first()),
        }
    }
}

/// The text of each field of each pane.
pub open spec fn pane_texts(panes: Seq<Pane>) -> Seq<(Seq<char>, Seq<char>, Seq<char>)> {
    panes.map_values(|p: Pane| (p.session@, p.pane_id@, p.working_dir@))
}

fn line_fields(l: &str) -> (r: Option<Pane>)
    ensures
        match pane_fields(l@) {
            Some(t) => r matches Some(p) && (p.session@, p.pane_id@, p.working_dir@) == t,
            None => r is None,
        },
{
    let n = l.unicode_len();
    proof {
        lemma_next_index(l@, ' ', 0);
    }
    let a = find_from(l, n, ' ', 0);
    if a >= n {
        return None;
    }
    proof {
        lemma_next_index(l@, ' ', a + 1);
    }
    let b = find_from(l, n, ' ', a + 1);
    if b >= n {
        return None;
    }
    Some(
        Pane {
            session: owned(l.substring_char(0, a)),
            pane_id: owned(l.substring_char(a + 1, b)),
            working_dir: owned(l.substring_char(b + 1, n)),
        },
    )
}

/// The panes listed by `tmux list-panes` (lines without all three fields
/// are skipped).
pub fn parse_list_panes(out: &str) -> (r: Vec<Pane>)
    ensures
        pane_texts(r@) == panes_of(lines_from(out@, 0)),
{
    let n = out.unicode_len();
    let mut panes: Vec<Pane> = Vec::new();
    let mut pos: usize = 0;
    while pos < n
        invariant
            n == out@.len(),
            pos <= n,
            pane_texts(panes@) + panes_of(lines_from(out@, pos as int)) == panes_of(
                lines_from(out@, 0),
            ),
        decreases n - pos,
    {
        proof {
            lemma_next_index(out@, '\n', pos as int);
        }
        let k = find_from(out, n, '\n', pos);
        let raw = out.substring_char(pos, k);
        let line_len = k - pos;
        let ends_nl = k < n;
        let line = if ends_nl && line_len > 0 && raw.get_char(line_len - 1) == '\r' {
            raw.substring_char(0, line_len - 1)
        } else {
            raw
        };
        proof {
            let ls = lines_from(out@, pos as int);
            let rest = lines_from(out@, k + 1);
            assert(ls == seq![strip_cr(out@.subrange(pos as int, k as int), k < n)] + rest);
            if ends_nl && line_len > 0 && raw@[line_len - 1] == '\r' {
                assert(line@ =~= raw@.drop_last());
            }
            assert(line@ == strip_cr(raw@, ends_nl));
            assert(ls[0] == line@);
            assert(ls.drop_first() =~= rest);
            if k >= n {
                assert(rest =~= Seq::<Seq<char>>::empty());
                assert(lines_from(out@, n as int) =~= Seq::<Seq<char>>::empty());
            }
        }
        let ghost before = panes@;
        match line_fields(line) {
            Some(p) => {
                panes.push(p);
                proof {
                    let t = pane_fields(line@)->0;
                    assert(pane_texts(panes@) =~= pane_texts(before) + seq![t]);
                    assert(pane_texts(panes@) + panes_of(lines_from(out@, k + 1)) =~= pane_texts(
                        before,
                    ) + (seq![t] + panes_of(lines_from(out@, k + 1))));
                }
            },
            None => {},
        }
        pos = if k < n {
            k + 1
        } else {
            n
        };
    }
    proof {
        assert(lines_from(out@, pos as int) =~= Seq::<Seq<char>>::empty());
        assert(pane_texts(panes@) + Seq::empty() =~= pane_texts(panes@));
    }
    panes
}

/// The value of a run of ASCII digits.
pub open spec fn digits_value(d: Seq<char>) -> nat
    decreases d.len(),
{
    if d.len() == 0 {
        0
    } else {
        digits_value(d.drop_last()) * 10 + ((d.last() as u32 - '0' as u32) as nat)
    }
}

/// Every character is an ASCII digit.
pub open spec fn all_digits(d: Seq<char>) -> bool {
    forall|i: int| 0 <= i < d.len() ==> '0' <= #[trigger] d[i] <= '9'
}

/// What `str::parse::<u32>` gives: an optional `+`, then one or more ASCII
/// digits whose value fits in 32 bits.
pub open spec fn parse_u32_spec(s: Seq<char>) -> Option<u32> {
    let d = if s.len() > 0 && s[0] == '+' {
        s.drop_first()
    } else {
        s
    };
    if d.len() == 0 || !all_digits(d) || digits_value(d) > u32::MAX {
        None
    } else {
        Some(digits_value(d) as u32)
    }
}

proof fn lemma_digits_grow(d: Seq<char>, i: int)
    requires
        0 <= i <= d.len(),
        all_digits(d),
    ensures
        digits_value(d.take(i)) <= digits_value(d),
    decreases d.len() - i,
{
    if i < d.len() {
        lemma_digits_grow(d, i + 1);
        assert(d.take(i + 1).drop_last() =~= d.take(i));
        assert(d.take(i + 1).last() == d[i]);
    } else {
        assert(d.take(i) =~= d);
    }
}

/// Parse a decimal `u32` (`str::parse::<u32>`).
pub fn parse_u32(s: &str) -> (r: Option<u32>)
    ensures
        r == parse_u32_spec(s@),
{
    let n = s.unicode_len();
    let start: usize = if n > 0 && s.get_char(0) == '+' {
        1
    } else {
        0
    };
    let ghost d = if s@.len() > 0 && s@[0] == '+' {
        s@.drop_first()
    } else {
        s@
    };
    assert(d =~= s@.subrange(start as int, n as int));
    if start == n {
        return None;
    }
    let mut v: u64 = 0;
    let mut i: usize = start;
    while i < n
        invariant
            n == s@.len(),
            start <= i <= n,
            d == s@.subrange(start as int, n as int),
            d == (if s@.len() > 0 && s@[0] == '+' {
                s@.drop_first()
            } else {
                s@
            }),
            d.len() > 0,
            v == digits_value(d.take(i - start)),
            v <= u32::MAX,
            all_digits(d.take(i - start)),
        decreases n - i,
    {
        let c = s.get_char(i);
        if !('0' <= c && c <= '9') {
            proof {
                assert(d[i - start] == c);
                assert(!all_digits(d));
            }
            return None;
        }
        let digit = (c as u32 - '0' as u32) as u64;
        proof {
            assert(d.take(i - start + 1).drop_last() =~= d.take(i - start));
            assert(d.take(i - start + 1).last() == c);
        }
        v = v * 10 + digit;
        if v > 4294967295u64 {
            proof {
                if all_digits(d) {
                    lemma_digits_grow(d, i - start + 1);
                    assert(digits_value(d) > u32::MAX);
                }
            }
            return None;
        }
        i = i + 1;
    }
    proof {
        assert(d.take(n - start) =~= d);
    }
    Some(v as u32)
}

/// The text between the `idx`-th and the next `.` (`split('.').nth(idx)`),
/// if there are that many pieces.
pub open spec fn dot_piece(s: Seq<char>, idx: nat) -> Option<Seq<char>>
    decreases idx,
{
    let k = next_index(s, '.', 0);
    if idx == 0 {
        Some(s.subrange(0, k))
    } else if k >= s.len() {
        None
    } else {
        dot_piece(s.subrange(k + 1, s.len() as int), (idx - 1) as nat)
    }
}

fn first_dot_piece(s: &str) -> (r: String)
    ensures
        dot_piece(s@, 0) == Some(r@),
{
    let n = s.unicode_len();
    proof {
        lemma_next_index(s@, '.', 0);
    }
    let k = find_from(s, n, '.', 0);
    owned(s.substring_char(0, k))
}

fn second_dot_piece(s: &str) -> (r: Option<String>)
    ensures
        match dot_piece(s@, 1) {
            Some(p) => r matches Some(x) && x@ == p,
            None => r is None,
        },
{
    let n = s.unicode_len();
    proof {
        lemma_next_index(s@, '.', 0);
    }
    let k = find_from(s, n, '.', 0);
    if k >= n {
        return None;
    }
    let rest = s.substring_char(k + 1, n);
    Some(first_dot_piece(rest))
}

/// Whether the output of `tmux -V` names version 2.6 or later: it must
/// begin with `tmux `; of the trimmed rest, the major number (before the
/// first `.`) must parse, and the minor number (the second `.`-piece)
/// counts as 0 where it is missing or does not parse; the pair (major,
/// minor) must be at least (2, 6).
pub open spec fn tmux_version_ok_spec(out: Seq<char>) -> bool {
    let prefix = "tmux "@;
    if !prefix.is_prefix_of(out) {
        false
    } else {
        let rest = crate::text::trimmed(out.subrange(prefix.len() as int, out.len() as int));
        let major = parse_u32_spec(dot_piece(rest, 0)->0);
        let minor = match dot_piece(rest, 1) {
            Some(p) => match parse_u32_spec(p) {
                Some(v) => v,
                None => 0,
            },
            None => 0,
        };
        major matches Some(m) && (m > 2 || (m == 2 && minor >= 6))
    }
}

/// Whether `tmux -V` printed a version of at least 2.6 (the check of the
/// tmux wrapper).
pub fn tmux_version_ok(out: &str) -> (r: bool)
    ensures
        r == tmux_version_ok_spec(out@),
{
    proof {
        reveal_strlit("tmux ");
    }
    if !crate::text::starts_with(out, "tmux ") {
        return false;
    }
    let n = out.unicode_len();
    let rest = out.substring_char(5, n);
    let t = crate::text::trim(rest);
    let major_text = first_dot_piece(t.as_str());
    let minor: u32 = match second_dot_piece(t.as_str()) {
        Some(p) => match parse_u32(p.as_str()) {
            Some(v) => v,
            None => 0,
        },
        None => 0,
    };
    match parse_u32(major_text.as_str()) {
        Some(m) => m > 2 || (m == 2 && minor >= 6),
        None => false,
    }
}

/// Index of the first non-white-space character at or after `from`.
pub open spec fn skip_space(s: Seq<char>, from: int) -> int
    decreases s.len() - from,
{
    if from < 0 || from >= s.len() {
        s.len() as int
    } else if !is_white_space(s[from]) {
        from
    } else {
        skip_space(s, from + 1)
    }
}

/// Index of the first white-space character at or after `from`.
pub open spec fn skip_word(s: Seq<char>, from: int) -> int
    decreases s.len() - from,
{
    if from < 0 || from >= s.len() {
        s.len() as int
    } else if is_white_space(s[from]) {
        from
    } else {
        skip_word(s, from + 1)
    }
}

proof fn lemma_skip_bounds(s: Seq<char>, from: int)
    requires
        0 <= from <= s.len(),
    ensures
        from <= skip_space(s, from) <= s.len(),
        from <= skip_word(s, from) <= s.len(),
    decreases s.len() - from,
{
    if from < s.len() {
        lemma_skip_bounds(s, from + 1);
    }
}

/// The second white-space separated word of `s`
/// (`split_whitespace().nth(1)`).
pub open spec fn second_word(s: Seq<char>) -> Option<Seq<char>> {
    let a = skip_space(s, 0);
    let b = skip_word(s, a);
    let c = skip_space(s, b);
    let d = skip_word(s, c);
    if a >= s.len() || c >= s.len() {
        None
    } else {
        Some(s.subrange(c, d))
    }
}

fn skip_space_from(s: &str, n: usize, from: usize) -> (k: usize)
    requires
        n == s@.len(),
        from <= n,
    ensures
        k == skip_space(s@, from as int),
        k <= n,
{
    let mut k = from;
    while k < n && white_space(s.get_char(k))
        invariant
            n == s@.len(),
            from <= k <= n,
            skip_space(s@, from as int) == skip_space(s@, k as int),
        decreases n - k,
    {
        k = k + 1;
    }
    k
}

fn skip_word_from(s: &str, n: usize, from: usize) -> (k: usize)
    requires
        n == s@.len(),
        from <= n,
    ensures
        k == skip_word(s@, from as int),
        from <= k <= n,
{
    let mut k = from;
    while k < n && !white_space(s.get_char(k))
        invariant
            n == s@.len(),
            from <= k <= n,
            skip_word(s@, from as int) == skip_word(s@, k as int),
        decreases n - k,
    {
        k = k + 1;
    }
    k
}

/// Whether the output of `tmux -V` names version 2.6 or later, read as the
/// setup command reads it: the second word is the version, its first two
/// `.`-pieces are major and minor (0 where missing or unparsable), compared
/// as the pair (major, minor) >= (2, 6).
pub open spec fn init_version_ok_spec(out: Seq<char>) -> bool {
    match second_word(out) {
        None => false,
        Some(v) => {
            let major = match parse_u32_spec(dot_piece(v, 0)->0) {
                Some(m) => m,
                None => 0,
            };
            let minor = match dot_piece(v, 1) {
                Some(p) => match parse_u32_spec(p) {
                    Some(m) => m,
                    None => 0,
                },
                None => 0,
            };
            major > 2 || (major == 2 && minor >= 6)
        },
    }
}

/// Whether `tmux -V` printed a version of at least 2.6 (the check of the
/// setup command).
pub fn init_version_ok(out: &str) -> (r: bool)
    ensures
        r == init_version_ok_spec(out@),
{
    let n = out.unicode_len();
    let a = skip_space_from(out, n, 0);
    if a >= n {
        return false;
    }
    let b = skip_word_from(out, n, a);
    let c = skip_space_from(out, n, b);
    if c >= n {
        return false;
    }
    let d = skip_word_from(out, n, c);
    let v = out.substring_char(c, d);
    let major_text = first_dot_piece(v);
    let major: u32 = match parse_u32(major_text.as_str()) {
        Some(m) => m,
        None => 0,
    };
    let minor: u32 = match second_dot_piece(v) {
        Some(p) => match parse_u32(p.as_str()) {
            Some(m) => m,
            None => 0,
        },
        None => 0,
    };
    major > 2 || (major == 2 && minor >= 6)
}

} // verus!
