//! Applying editor-style (line, column) ranges to document text.
//!
//! Lines and columns are 1-based; a column counts characters within its line.
//! Positions are reported as the number of characters before them.

use vstd::prelude::*;
use vstd::string::*;

use crate::messages::TextChangeDelta;

verus! {

/// Number of newline characters in `s`.
pub open spec fn newlines_in(s: Seq<char>) -> nat
    decreases s.len(),
{
    if s.len() == 0 {
        0
    } else {
        newlines_in(s.drop_last()) + if s.last() == '\n' { 1nat } else { 0nat }
    }
}

/// `p` is where line `line` of `s` begins: at the start of the text, or just
/// after a newline, with exactly `line - 1` newlines before it.
pub open spec fn is_line_start(s: Seq<char>, line: int, p: int) -> bool {
    &&& 0 <= p <= s.len()
    &&& (p == 0 || s[p - 1] == '\n')
    &&& newlines_in(s.take(p)) + 1 == line
}

/// `q` is the place of column `col` on line `line`: the line begins `col - 1`
/// characters before `q`, and no newline lies between.
pub open spec fn is_position(s: Seq<char>, line: int, col: int, q: int) -> bool {
    let p = q - (col - 1);
    &&& col >= 1
    &&& is_line_start(s, line, p)
    &&& q <= s.len()
    &&& forall|j: int| p <= j < q ==> s[j] != '\n'
}

/// The place of (`line`, `col`) in `s`, when there is one.
pub open spec fn position_of(s: Seq<char>, line: int, col: int) -> Option<int> {
    if exists|q: int| is_position(s, line, col, q) {
        Some(choose|q: int| is_position(s, line, col, q))
    } else {
        None
    }
}

/// The text that results from replacing the range from (`start_line`, `start_col`)
/// to (`end_line`, `end_col`) of `s` by `text`; `None` where either end is no place
/// in `s`, or the range ends before it starts.
pub open spec fn edited(
    s: Seq<char>,
    start_line: int,
    start_col: int,
    end_line: int,
    end_col: int,
    text: Seq<char>,
) -> Option<Seq<char>> {
    match (position_of(s, start_line, start_col), position_of(s, end_line, end_col)) {
        (Some(a), Some(b)) => if a <= b {
            Some(s.take(a) + text + s.skip(b))
        } else {
            None
        },
        _ => None,
    }
}

/// The text that `delta` makes of `s`, when it applies.
pub open spec fn delta_result(s: Seq<char>, delta: TextChangeDelta) -> Option<Seq<char>> {
    edited(
        s,
        delta.range.start_line as int,
        delta.range.start_column as int,
        delta.range.end_line as int,
        delta.range.end_column as int,
        delta.text@,
    )
}

proof fn lemma_newlines_step(s: Seq<char>, i: int)
    requires
        0 <= i < s.len(),
    ensures
        newlines_in(s.take(i + 1)) == newlines_in(s.take(i)) + if s[i] == '\n' { 1nat } else { 0nat },
{
    assert(s.take(i + 1).drop_last() =~= s.take(i));
}

proof fn lemma_newlines_mono(s: Seq<char>, a: int, b: int)
    requires
        0 <= a <= b <= s.len(),
    ensures
        newlines_in(s.take(a)) <= newlines_in(s.take(b)),
        a < b && s[b - 1] == '\n' ==> newlines_in(s.take(a)) < newlines_in(s.take(b)),
    decreases b - a,
{
    if a < b {
        lemma_newlines_mono(s, a, b - 1);
        lemma_newlines_step(s, b - 1);
    }
}

/// A line begins at one place at most.
proof fn lemma_line_start_unique(s: Seq<char>, line: int, p1: int, p2: int)
    requires
        is_line_start(s, line, p1),
        is_line_start(s, line, p2),
    ensures
        p1 == p2,
{
    if p1 < p2 {
        lemma_newlines_mono(s, p1, p2);
    } else if p2 < p1 {
        lemma_newlines_mono(s, p2, p1);
    }
}

/// A (line, column) pair names one place at most.
pub proof fn lemma_position_unique(s: Seq<char>, line: int, col: int, q1: int, q2: int)
    requires
        is_position(s, line, col, q1),
        is_position(s, line, col, q2),
    ensures
        q1 == q2,
{
    lemma_line_start_unique(s, line, q1 - (col - 1), q2 - (col - 1));
}

proof fn lemma_position_of(s: Seq<char>, line: int, col: int, q: int)
    requires
        is_position(s, line, col, q),
    ensures
        position_of(s, line, col) == Some(q),
{
    let c = choose|x: int| is_position(s, line, col, x);
    lemma_position_unique(s, line, col, c, q);
}

/// Where the line holding place `q` of `s` begins.
pub open spec fn line_begin(s: Seq<char>, q: int) -> int
    decreases q,
{
    if q <= 0 {
        0
    } else if s[q - 1] == '\n' {
        q
    } else {
        line_begin(s, q - 1)
    }
}

/// The line of place `q` of `s`.
pub open spec fn line_of(s: Seq<char>, q: int) -> int {
    newlines_in(s.take(q)) + 1int
}

/// The column of place `q` of `s`.
pub open spec fn column_of(s: Seq<char>, q: int) -> int {
    q - line_begin(s, q) + 1
}

proof fn lemma_line_begin(s: Seq<char>, q: int)
    requires
        0 <= q <= s.len(),
    ensures
        0 <= line_begin(s, q) <= q,
        line_begin(s, q) == 0 || s[line_begin(s, q) - 1] == '\n',
        forall|j: int| line_begin(s, q) <= j < q ==> s[j] != '\n',
        newlines_in(s.take(line_begin(s, q))) == newlines_in(s.take(q)),
    decreases q,
{
    if q > 0 && s[q - 1] != '\n' {
        lemma_line_begin(s, q - 1);
        lemma_newlines_step(s, q - 1);
    }
}

/// Every place of the text has a (line, column) pair that names it.
pub proof fn lemma_position_roundtrip(s: Seq<char>, q: int)
    requires
        0 <= q <= s.len(),
    ensures
        position_of(s, line_of(s, q), column_of(s, q)) == Some(q),
{
    lemma_line_begin(s, q);
    lemma_position_of(s, line_of(s, q), column_of(s, q), q);
}

/// An edit is undone by replacing the text it inserted, addressed by the
/// (line, column) pairs of its two ends in the new text, by the text it removed.
pub proof fn lemma_edit_undo(
    s: Seq<char>,
    start_line: int,
    start_col: int,
    end_line: int,
    end_col: int,
    text: Seq<char>,
)
    requires
        edited(s, start_line, start_col, end_line, end_col, text) is Some,
    ensures
        ({
            let s2 = edited(s, start_line, start_col, end_line, end_col, text)->0;
            let a = position_of(s, start_line, start_col)->0;
            let b = position_of(s, end_line, end_col)->0;
            let e = a + text.len();
            edited(
                s2,
                line_of(s2, a),
                column_of(s2, a),
                line_of(s2, e),
                column_of(s2, e),
                s.subrange(a, b),
            ) == Some(s)
        }),
{
    let s2 = edited(s, start_line, start_col, end_line, end_col, text)->0;
    let a = position_of(s, start_line, start_col)->0;
    let b = position_of(s, end_line, end_col)->0;
    let e = a + text.len();
    let qa = choose|q: int| is_position(s, start_line, start_col, q);
    let qb = choose|q: int| is_position(s, end_line, end_col, q);
    assert(is_position(s, start_line, start_col, qa));
    assert(is_position(s, end_line, end_col, qb));
    assert(s2 == s.take(a) + text + s.skip(b));
    lemma_position_roundtrip(s2, a);
    lemma_position_roundtrip(s2, e);
    assert(s2.take(a) + s.subrange(a, b) + s2.skip(e) =~= s);
}

/// Replacing an empty range by empty text changes nothing.
pub proof fn lemma_empty_edit_identity(s: Seq<char>, line: int, col: int)
    requires
        position_of(s, line, col) is Some,
    ensures
        edited(s, line, col, line, col, Seq::empty()) == Some(s),
{
    let q = position_of(s, line, col)->0;
    assert(s.take(q) + Seq::<char>::empty() + s.skip(q) =~= s);
}

fn count_chars(s: &str) -> (n: usize)
    ensures n == s@.len(),
{
    s.unicode_len()
}

fn line_start(s: &str, line: u32) -> (r: Option<usize>)
    ensures
        r matches Some(p) ==> is_line_start(s@, line as int, p as int),
        r is None ==> forall|p: int| !is_line_start(s@, line as int, p),
{
    let n = count_chars(s);
    if line < 1 {
        return None;
    }
    if line == 1 {
        return Some(0);
    }
    let mut current: u32 = 1;
    let mut i: usize = 0;
    for ch in it: s.chars()
        invariant
            n == s@.len(),
            it.seq() == s@,
            i == it.index(),
            1 <= current < line,
            current == newlines_in(s@.take(i as int)) + 1,
    {
        proof {
            lemma_newlines_step(s@, i as int);
        }
        if ch == '\n' {
            current += 1;
            if current == line {
                return Some(i + 1);
            }
        }
        i += 1;
    }
    proof {
        assert(s@.take(n as int) =~= s@);
        assert forall|p: int| !is_line_start(s@, line as int, p) by {
            if 0 <= p <= s@.len() {
                lemma_newlines_mono(s@, p, n as int);
            }
        }
    }
    None
}

fn offset_for_position(s: &str, line: u32, col: u32) -> (r: Option<usize>)
    ensures
        r matches Some(q) ==> position_of(s@, line as int, col as int) == Some(q as int),
        r is None ==> position_of(s@, line as int, col as int) is None,
{
    if col < 1 {
        return None;
    }
    let start = match line_start(s, line) {
        Some(p) => p,
        None => {
            proof {
                assert forall|q: int| !is_position(s@, line as int, col as int, q) by {}
            }
            return None;
        },
    };
    if col == 1 {
        proof {
            lemma_position_of(s@, line as int, col as int, start as int);
        }
        return Some(start);
    }
    let n = count_chars(s);
    let mut col_idx: u32 = 1;
    let mut i: usize = 0;
    for ch in it: s.chars()
        invariant
            n == s@.len(),
            it.seq() == s@,
            i == it.index(),
            1 < col,
            is_line_start(s@, line as int, start as int),
            1 <= col_idx < col,
            i >= start ==> col_idx == i - start + 1,
            i < start ==> col_idx == 1,
            forall|j: int| start <= j < i ==> s@[j] != '\n',
    {
        if i >= start {
            if ch == '\n' {
                proof {
                    assert forall|q: int| !is_position(s@, line as int, col as int, q) by {
                        if is_position(s@, line as int, col as int, q) {
                            lemma_line_start_unique(s@, line as int, start as int, q - (col - 1));
                            assert(s@[i as int] == '\n');
                        }
                    }
                }
                return None;
            }
            col_idx += 1;
            if col_idx == col {
                proof {
                    lemma_position_of(s@, line as int, col as int, (i + 1) as int);
                }
                return Some(i + 1);
            }
        }
        i += 1;
    }
    proof {
        assert forall|q: int| !is_position(s@, line as int, col as int, q) by {
            if is_position(s@, line as int, col as int, q) {
                lemma_line_start_unique(s@, line as int, start as int, q - (col - 1));
            }
        }
    }
    None
}

/// Whether `delta` applies to `content`: both ends of its range name places
/// in the text and the range does not end before it starts.
pub fn delta_applies(content: &str, delta: &TextChangeDelta) -> (r: bool)
    ensures
        r == delta_result(content@, *delta) is Some,
{
    let start = match offset_for_position(content, delta.range.start_line, delta.range.start_column) {
        Some(p) => p,
        None => return false,
    };
    let end = match offset_for_position(content, delta.range.end_line, delta.range.end_column) {
        Some(p) => p,
        None => return false,
    };
    start <= end
}

/// Apply one edit to `content`. Fails, leaving `content` as it was, where either
/// end of the range names no place in the text or the range ends before it starts.
pub fn apply_text_delta(content: &mut String, delta: &TextChangeDelta) -> (r: Result<(), ()>)
    ensures
        r is Ok <==> delta_result(old(content)@, *delta) is Some,
        r is Ok ==> final(content)@ == delta_result(old(content)@, *delta)->0,
        r is Err ==> final(content)@ == old(content)@,
{
    let start = match offset_for_position(content.as_str(), delta.range.start_line, delta.range.start_column) {
        Some(p) => p,
        None => return Err(()),
    };
    let end = match offset_for_position(content.as_str(), delta.range.end_line, delta.range.end_column) {
        Some(p) => p,
        None => return Err(()),
    };
    if start > end {
        return Err(());
    }
    let n = count_chars(content.as_str());
    let mut updated = String::from_str(content.as_str().substring_char(0, start));
    updated.append(delta.text.as_str());
    updated.append(content.as_str().substring_char(end, n));
    proof {
        assert(content@.subrange(0, start as int) =~= content@.take(start as int));
        assert(content@.subrange(end as int, n as int) =~= content@.skip(end as int));
    }
    *content = updated;
    Ok(())
}

} // verus!
