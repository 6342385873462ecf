//! Per-connection work units: cells (byte ranges being filled), claiming
//! free cells, stealing half of the largest remainder, and the decisions a
//! streaming connection takes between reads.
use vstd::prelude::*;
use crate::storage::ChunkRow;
use crate::text::{append, append_str, dec, dec_u64, string_of, chars_of, has_prefix, starts_with};

verus! {

/// Don't split remainders smaller than twice this.
pub const MIN_SPLIT: u64 = 1048576;

/// Persist progress every this many bytes.
pub const PERSIST_EVERY: u64 = 262144;

/// Retries allowed in a row before a connection gives up.
pub const MAX_CONSECUTIVE_FAILURES: u32 = 6;

/// Unknown-total sentinel (single-stream fallback).
pub const UNKNOWN_END: u64 = 0xffff_ffff_ffff_ffff;

/// What the orchestrator tells its workers.
#[derive(Clone, Copy, PartialEq, Eq, Debug, Structural)]
pub enum Cmd {
    Run,
    Pause,
    Stop,
}

/// How a worker's connection ended.
#[derive(Clone, Debug, PartialEq, Eq)]
pub enum DriveOutcome {
    Done,
    Paused,
    Stopped,
    Failed(String),
}

/// One byte range `[start, end)` being filled; `end` may shrink when a
/// sibling steals the tail, and is `UNKNOWN_END` for a stream of unknown size.
#[derive(Clone, Copy, Debug, PartialEq, Eq, Structural)]
pub struct Cell {
    pub idx: usize,
    pub start: u64,
    pub end: u64,
    /// bytes written relative to `start`
    pub done: u64,
    /// bytes written since the last speed sample
    pub speed: u64,
    pub active: bool,
}

/// Bytes still missing in a cell (`end.saturating_sub(start + done)`).
pub open spec fn rem_of(c: Cell) -> int {
    if c.end >= c.start + c.done {
        c.end - (c.start + c.done)
    } else {
        0
    }
}

/// A cell's write position.
pub open spec fn pos_of(c: Cell) -> int {
    c.start + c.done
}

/// Positions stay representable.
pub open spec fn cell_ok(c: Cell) -> bool {
    c.start + c.done <= u64::MAX
}

pub open spec fn cells_ok(cells: Seq<Cell>) -> bool {
    forall|i: int| 0 <= i < cells.len() ==> #[trigger] cell_ok(cells[i])
}

impl Cell {
    pub fn new(idx: usize, start: u64, end: u64) -> (r: Cell)
        ensures
            r == (Cell { idx, start, end, done: 0, speed: 0, active: false }),
    {
        Cell { idx, start, end, done: 0, speed: 0, active: false }
    }

    /// Bytes still missing in this cell.
    pub fn remaining(&self) -> (r: u64)
        requires
            cell_ok(*self),
        ensures
            r == rem_of(*self),
    {
        let p = self.start + self.done;
        if self.end >= p {
            self.end - p
        } else {
            0
        }
    }

    pub fn span(&self) -> (r: (u64, u64))
        ensures
            r == (self.start, self.end),
    {
        (self.start, self.end)
    }
}

// ------------------------------------------------------------------
// claiming and stealing
// ------------------------------------------------------------------

/// A free cell with work left in it.
pub open spec fn claimable(c: Cell) -> bool {
    !c.active && (rem_of(c) > 0 || (c.end == UNKNOWN_END && c.done == 0))
}

pub open spec fn first_claimable(cells: Seq<Cell>, i: int) -> bool {
    &&& 0 <= i < cells.len()
    &&& claimable(cells[i])
    &&& forall|j: int| 0 <= j < i ==> !claimable(#[trigger] cells[j])
}

/// The active cell with the largest remainder above `2 * MIN_SPLIT` (the first such on ties).
pub open spec fn is_victim(cells: Seq<Cell>, v: int) -> bool {
    &&& 0 <= v < cells.len()
    &&& cells[v].active
    &&& rem_of(cells[v]) > 2 * MIN_SPLIT
    &&& forall|j: int|
        0 <= j < cells.len() && (#[trigger] cells[j]).active ==> rem_of(cells[j]) <= rem_of(
            cells[v],
        )
    &&& forall|j: int|
        0 <= j < v && (#[trigger] cells[j]).active ==> rem_of(cells[j]) < rem_of(cells[v])
}

/// Where a thief splits its victim: half-way through what the victim has left.
pub open spec fn split_point(c: Cell) -> int {
    pos_of(c) + (c.end - pos_of(c)) / 2
}

/// What a claim attempt did.
#[derive(Clone, Copy, Debug, PartialEq, Eq, Structural)]
pub enum Claim {
    /// took over the free cell at this index
    Free(usize),
    /// split an active cell and took its tail, as a new cell at this index
    Stolen(usize),
}

/// The cells after a worker takes over free cell `i`.
pub open spec fn after_claim(cells: Seq<Cell>, i: int) -> Seq<Cell> {
    cells.update(i, Cell { active: true, ..cells[i] })
}

/// The cells after a thief takes the tail of cell `v`.
pub open spec fn after_steal(cells: Seq<Cell>, v: int) -> Seq<Cell> {
    let c = cells[v];
    let mid = split_point(c) as u64;
    cells.update(v, Cell { end: mid, ..c }).push(
        Cell { idx: cells.len() as usize, start: mid, end: c.end, done: 0, speed: 0, active: true },
    )
}

/// Whether some active cell can give a thief its tail.
pub open spec fn steal_target(cells: Seq<Cell>, v: int) -> bool {
    &&& is_victim(cells, v)
    &&& cells[v].end != UNKNOWN_END
    &&& cells[v].end > pos_of(cells[v])
}

/// Take ownership of unfinished work: the first free cell with work left, or
/// else half of the largest remainder of an active cell.
pub fn claim_or_steal(cells: &mut Vec<Cell>) -> (r: Option<Claim>)
    requires
        cells_ok(old(cells)@),
    ensures
        cells_ok(final(cells)@),
        match r {
            Some(Claim::Free(f)) => {
                &&& first_claimable(old(cells)@, f as int)
                &&& final(cells)@ == after_claim(old(cells)@, f as int)
            },
            Some(Claim::Stolen(t)) => {
                &&& forall|j: int| 0 <= j < old(cells)@.len() ==> !claimable(#[trigger] old(cells)@[j])
                &&& t == old(cells)@.len()
                &&& exists|v: int|
                    steal_target(old(cells)@, v) && final(cells)@ == after_steal(old(cells)@, v)
            },
            None => {
                &&& final(cells)@ == old(cells)@
                &&& forall|j: int| 0 <= j < old(cells)@.len() ==> !claimable(#[trigger] old(cells)@[j])
                &&& forall|v: int| !steal_target(old(cells)@, v)
            },
        },
{
    let ghost orig = cells@;
    // pass 1: a free cell with work left
    let mut i: usize = 0;
    while i < cells.len()
        invariant
            cells@ == orig,
            orig == old(cells)@,
            cells_ok(orig),
            i <= cells.len(),
            forall|j: int| 0 <= j < i ==> !claimable(#[trigger] orig[j]),
        decreases cells.len() - i,
    {
        let c = cells[i];
        assert(cell_ok(orig[i as int]));
        let unknown = c.end == UNKNOWN_END;
        if !c.active && (c.remaining() > 0 || (unknown && c.done == 0)) {
            let mut taken = c;
            taken.active = true;
            assert(claimable(orig[i as int]));
            assert(first_claimable(orig, i as int));
            cells.set(i, taken);
            assert(cells@ == after_claim(orig, i as int));
            assert(orig == old(cells)@);
            assert(cell_ok(taken));
            assert(cells_ok(cells@)) by {
                assert forall|j: int| 0 <= j < cells@.len() implies #[trigger] cell_ok(cells@[j]) by {
                    if j != i {
                        assert(cell_ok(orig[j]));
                    }
                }
            }
            return Some(Claim::Free(i));
        }
        i = i + 1;
    }
    // pass 2: the fattest remainder of an active cell
    let mut best: Option<usize> = None;
    let mut best_rem: u64 = 2 * MIN_SPLIT;
    let mut k: usize = 0;
    while k < cells.len()
        invariant
            cells@ == orig,
            orig == old(cells)@,
            cells_ok(orig),
            k <= cells.len(),
            forall|j: int| 0 <= j < orig.len() ==> !claimable(#[trigger] orig[j]),
            match best {
                Some(b) => {
                    &&& b < k
                    &&& orig[b as int].active
                    &&& best_rem == rem_of(orig[b as int])
                    &&& best_rem > 2 * MIN_SPLIT
                    &&& forall|j: int|
                        0 <= j < k && (#[trigger] orig[j]).active ==> rem_of(orig[j]) <= best_rem
                    &&& forall|j: int|
                        0 <= j < b && (#[trigger] orig[j]).active ==> rem_of(orig[j]) < best_rem
                },
                None => {
                    &&& best_rem == 2 * MIN_SPLIT
                    &&& forall|j: int|
                        0 <= j < k && (#[trigger] orig[j]).active ==> rem_of(orig[j]) <= 2
                            * MIN_SPLIT
                },
            },
        decreases cells.len() - k,
    {
        let c = cells[k];
        assert(cell_ok(orig[k as int]));
        if c.active {
            let rem = c.remaining();
            if rem > best_rem {
                best_rem = rem;
                best = Some(k);
            }
        }
        k = k + 1;
    }
    let vi = match best {
        Some(b) => b,
        None => {
            assert forall|v: int| !steal_target(orig, v) by {
                if is_victim(orig, v) {
                    assert(orig[v].active);
                }
            }
            return None;
        },
    };
    assert(is_victim(orig, vi as int));
    assert forall|v: int| is_victim(orig, v) implies v == vi by {
        if v < vi {
            assert(rem_of(orig[v]) < rem_of(orig[vi as int]));
            assert(rem_of(orig[vi as int]) <= rem_of(orig[v]));
        } else if v > vi {
            assert(rem_of(orig[vi as int]) < rem_of(orig[v]));
            assert(rem_of(orig[v]) <= rem_of(orig[vi as int]));
        }
    }
    let victim = cells[vi];
    assert(cell_ok(orig[vi as int]));
    let vpos = victim.start + victim.done;
    if victim.end == UNKNOWN_END || victim.end <= vpos {
        return None;
    }
    let rem = victim.end - vpos;
    let mid = vpos + rem / 2;
    let mut shrunk = victim;
    shrunk.end = mid;
    cells.set(vi, shrunk);
    let thief = Cell { idx: cells.len(), start: mid, end: victim.end, done: 0, speed: 0, active: true };
    let t = cells.len();
    cells.push(thief);
    assert(steal_target(orig, vi as int));
    assert(cells@ =~= after_steal(orig, vi as int));
    assert(cells_ok(cells@)) by {
        assert forall|j: int| 0 <= j < cells@.len() implies #[trigger] cell_ok(cells@[j]) by {
            if j < orig.len() && j != vi {
                assert(cell_ok(orig[j]));
            }
        }
    }
    Some(Claim::Stolen(t))
}

/// Byte `x` lies inside some cell's range.
pub open spec fn covered(cells: Seq<Cell>, x: int) -> bool {
    exists|i: int| 0 <= i < cells.len() && (#[trigger] cells[i]).start <= x < cells[i].end
}

/// No byte lies in two cells.
pub open spec fn disjoint(cells: Seq<Cell>) -> bool {
    forall|i: int, j: int|
        0 <= i < cells.len() && 0 <= j < cells.len() && i != j ==> (#[trigger] cells[i]).end
            <= cells[j].start || (#[trigger] cells[j]).end <= cells[i].start
}

/// Stealing moves bytes between cells without losing or duplicating any:
/// the same bytes are covered afterwards, the ranges stay disjoint, and
/// everything the victim had already written stays the victim's.
pub proof fn lemma_steal_keeps_coverage(cells: Seq<Cell>, v: int, x: int)
    requires
        cells_ok(cells),
        steal_target(cells, v),
    ensures
        covered(cells, x) == covered(after_steal(cells, v), x),
        disjoint(cells) ==> disjoint(after_steal(cells, v)),
        after_steal(cells, v)[v].end >= pos_of(cells[v]),
        after_steal(cells, v)[v].start == cells[v].start,
        after_steal(cells, v)[v].done == cells[v].done,
{
    let a = after_steal(cells, v);
    let c = cells[v];
    assert(cell_ok(cells[v]));
    let mid = split_point(c);
    assert(pos_of(c) <= mid <= c.end);
    assert(mid as u64 == mid);
    if covered(cells, x) {
        let i = choose|i: int| 0 <= i < cells.len() && (#[trigger] cells[i]).start <= x < cells[i].end;
        if i == v {
            if x < mid {
                assert(a[v].start <= x < a[v].end);
            } else {
                let t = cells.len() as int;
                assert(a[t].start <= x < a[t].end);
            }
        } else {
            assert(a[i] == cells[i]);
        }
    }
    if covered(a, x) {
        let i = choose|i: int| 0 <= i < a.len() && (#[trigger] a[i]).start <= x < a[i].end;
        if i == cells.len() {
            assert(cells[v].start <= x < cells[v].end);
        } else if i == v {
            assert(cells[v].start <= x < cells[v].end);
        } else {
            assert(cells[i].start <= x < cells[i].end);
        }
    }
    if disjoint(cells) {
        assert forall|i: int, j: int|
            0 <= i < a.len() && 0 <= j < a.len() && i != j implies (#[trigger] a[i]).end
            <= a[j].start || (#[trigger] a[j]).end <= a[i].start by {
            let t = cells.len() as int;
            if i == t && j != v && j != t {
                assert(cells[v].end <= cells[j].start || cells[j].end <= cells[v].start);
            } else if j == t && i != v && i != t {
                assert(cells[v].end <= cells[i].start || cells[i].end <= cells[v].start);
            } else if i != t && j != t {
                assert(cells[i].end <= cells[j].start || cells[j].end <= cells[i].start);
            }
        }
    }
}

// ------------------------------------------------------------------
// persisted rows <-> cells
// ------------------------------------------------------------------

/// The row a cell is persisted as: inclusive end, `-1` for an unknown end.
pub open spec fn row_of(c: Cell) -> ChunkRow {
    ChunkRow {
        idx: c.idx as i64,
        start: c.start as i64,
        end: if c.end == UNKNOWN_END {
            -1i64
        } else {
            (if c.end >= 1 {
                c.end - 1
            } else {
                0
            }) as i64
        },
        done: c.done as i64,
    }
}

pub fn row_of_cell(c: &Cell) -> (r: ChunkRow)
    ensures
        r == row_of(*c),
{
    ChunkRow {
        idx: c.idx as i64,
        start: c.start as i64,
        end: if c.end == UNKNOWN_END {
            -1
        } else {
            (c.end.saturating_sub(1)) as i64
        },
        done: c.done as i64,
    }
}

pub fn rows_of_cells(cells: &Vec<Cell>) -> (r: Vec<ChunkRow>)
    ensures
        r@.len() == cells@.len(),
        forall|i: int| 0 <= i < cells@.len() ==> #[trigger] r@[i] == row_of(cells@[i]),
{
    let mut r: Vec<ChunkRow> = Vec::new();
    for i in 0..cells.len()
        invariant
            r@.len() == i,
            forall|j: int| 0 <= j < i ==> #[trigger] r@[j] == row_of(cells@[j]),
    {
        r.push(row_of_cell(&cells[i]));
    }
    r
}

/// The cell a persisted row resumes as.
pub open spec fn cell_of_row(row: ChunkRow) -> Cell {
    Cell {
        idx: row.idx as usize,
        start: (if row.start < 0 {
            0
        } else {
            row.start
        }) as u64,
        end: if row.end < 0 {
            UNKNOWN_END
        } else if row.end as u64 == u64::MAX {
            u64::MAX
        } else {
            (row.end + 1) as u64
        },
        done: (if row.done < 0 {
            0
        } else {
            row.done
        }) as u64,
        speed: 0,
        active: false,
    }
}

pub fn cell_from_row(row: &ChunkRow) -> (r: Cell)
    ensures
        r == cell_of_row(*row),
{
    let end = if row.end < 0 {
        UNKNOWN_END
    } else {
        (row.end as u64).saturating_add(1)
    };
    let start = if row.start < 0 {
        0
    } else {
        row.start as u64
    };
    let done = if row.done < 0 {
        0
    } else {
        row.done as u64
    };
    Cell { idx: row.idx as usize, start, end, done, speed: 0, active: false }
}

/// Cells resumed from persisted rows, in order.
pub fn cells_from_rows(rows: &Vec<ChunkRow>) -> (r: Vec<Cell>)
    ensures
        r@.len() == rows@.len(),
        forall|i: int| 0 <= i < rows@.len() ==> #[trigger] r@[i] == cell_of_row(rows@[i]),
{
    let mut r: Vec<Cell> = Vec::new();
    for i in 0..rows.len()
        invariant
            r@.len() == i,
            forall|j: int| 0 <= j < i ==> #[trigger] r@[j] == cell_of_row(rows@[j]),
    {
        r.push(cell_from_row(&rows[i]));
    }
    r
}

/// Fresh cells for a new split: each inclusive row end becomes an exclusive cell end.
pub fn cells_from_split(rows: &Vec<ChunkRow>) -> (r: Vec<Cell>)
    requires
        forall|i: int|
            0 <= i < rows@.len() ==> 0 <= (#[trigger] rows@[i]).start && 0 <= rows@[i].end
                && 0 <= rows@[i].idx,
    ensures
        r@.len() == rows@.len(),
        forall|i: int|
            0 <= i < rows@.len() ==> #[trigger] r@[i] == Cell::new_spec(
                rows@[i].idx as usize,
                rows@[i].start as u64,
                (rows@[i].end + 1) as u64,
            ),
{
    let mut r: Vec<Cell> = Vec::new();
    for i in 0..rows.len()
        invariant
            forall|j: int|
                0 <= j < rows@.len() ==> 0 <= (#[trigger] rows@[j]).start && 0 <= rows@[j].end
                    && 0 <= rows@[j].idx,
            r@.len() == i,
            forall|j: int|
                0 <= j < i ==> #[trigger] r@[j] == Cell::new_spec(
                    rows@[j].idx as usize,
                    rows@[j].start as u64,
                    (rows@[j].end + 1) as u64,
                ),
    {
        let row = rows[i];
        assert(0 <= rows@[i as int].end);
        r.push(Cell::new(row.idx as usize, row.start as u64, (row.end as u64) + 1));
    }
    r
}

impl Cell {
    pub open spec fn new_spec(idx: usize, start: u64, end: u64) -> Cell {
        Cell { idx, start, end, done: 0, speed: 0, active: false }
    }
}

/// A cell survives being persisted and resumed whenever its numbers fit the
/// row format (below `2^63`) and its end is not `0`.
pub proof fn lemma_row_round_trip(c: Cell)
    requires
        c.idx <= i64::MAX,
        c.start <= i64::MAX,
        c.done <= i64::MAX,
        c.end == UNKNOWN_END || (1 <= c.end && c.end <= i64::MAX),
        !c.active,
        c.speed == 0,
    ensures
        cell_of_row(row_of(c)) == c,
{
}

// ------------------------------------------------------------------
// one connection's decisions
// ------------------------------------------------------------------

/// The `Range` header a connection asks for from `pos` (exclusive `end`).
pub open spec fn range_header(ranged: bool, pos: u64, end: u64) -> Option<Seq<char>> {
    if !ranged {
        None
    } else if end != UNKNOWN_END {
        Some("bytes="@ + dec(pos as nat) + "-"@ + dec((end - 1) as nat))
    } else {
        Some("bytes="@ + dec(pos as nat) + "-"@)
    }
}

pub fn range_header_value(ranged: bool, pos: u64, end: u64) -> (r: Option<String>)
    requires
        end > 0,
    ensures
        match r {
            Some(s) => range_header(ranged, pos, end) == Some(s@),
            None => range_header(ranged, pos, end) is None,
        },
{
    if !ranged {
        return None;
    }
    let mut v: Vec<char> = Vec::new();
    append_str(&mut v, "bytes=");
    let p = dec_u64(pos);
    append(&mut v, &p);
    append_str(&mut v, "-");
    if end != UNKNOWN_END {
        let e = dec_u64(end - 1);
        append(&mut v, &e);
    }
    Some(string_of(&v))
}

/// The validator sent as `If-Range`: a strong ETag, or else the Last-Modified date.
pub open spec fn if_range(etag: Seq<char>, last_modified: Seq<char>) -> Option<Seq<char>> {
    if etag.len() > 0 && !starts_with(etag, "W/"@) && !starts_with(etag, "w/"@) {
        Some(etag)
    } else if last_modified.len() > 0 {
        Some(last_modified)
    } else {
        None
    }
}

pub fn if_range_value(etag: &str, last_modified: &str) -> (r: Option<String>)
    ensures
        match r {
            Some(s) => if_range(etag@, last_modified@) == Some(s@),
            None => if_range(etag@, last_modified@) is None,
        },
{
    let e = chars_of(etag);
    let lm = chars_of(last_modified);
    let weak1 = chars_of("W/");
    let weak2 = chars_of("w/");
    if e.len() > 0 && !has_prefix(&e, &weak1) && !has_prefix(&e, &weak2) {
        Some(string_of(&e))
    } else if lm.len() > 0 {
        Some(string_of(&lm))
    } else {
        None
    }
}

/// Why a connection gave up on a response.
#[derive(Clone, Copy, Debug, PartialEq, Eq, Structural)]
pub enum Refusal {
    /// asked to resume mid-file, got something other than 206
    ResumeRefused,
    /// a failing HTTP status
    Http,
}

/// What to do with a response status.
#[derive(Clone, Copy, Debug, PartialEq, Eq, Structural)]
pub enum Verdict {
    Stream,
    Retry,
    Fail(Refusal),
}

pub open spec fn is_success(status: u16) -> bool {
    200 <= status <= 299
}

/// Statuses worth retrying: rate limiting, unavailability, server errors.
pub open spec fn retryable(status: u16) -> bool {
    status == 429 || status == 503 || (500 <= status <= 599)
}

/// The verdict on a response; `attempts` counts failures so far, before this one.
pub open spec fn verdict(ranged: bool, pos: u64, status: u16, attempts: u32) -> Verdict {
    if ranged && pos > 0 && status != 206 {
        if attempts + 1 > MAX_CONSECUTIVE_FAILURES {
            Verdict::Fail(Refusal::ResumeRefused)
        } else {
            Verdict::Retry
        }
    } else if !is_success(status) {
        if !retryable(status) || attempts + 1 > MAX_CONSECUTIVE_FAILURES {
            Verdict::Fail(Refusal::Http)
        } else {
            Verdict::Retry
        }
    } else {
        Verdict::Stream
    }
}

pub fn judge_status(ranged: bool, pos: u64, status: u16, attempts: u32) -> (r: Verdict)
    requires
        attempts < u32::MAX,
    ensures
        r == verdict(ranged, pos, status, attempts),
{
    if ranged && pos > 0 && status != 206 {
        if attempts + 1 > MAX_CONSECUTIVE_FAILURES {
            Verdict::Fail(Refusal::ResumeRefused)
        } else {
            Verdict::Retry
        }
    } else if !(200 <= status && status <= 299) {
        let retry = status == 429 || status == 503 || (500 <= status && status <= 599);
        if !retry || attempts + 1 > MAX_CONSECUTIVE_FAILURES {
            Verdict::Fail(Refusal::Http)
        } else {
            Verdict::Retry
        }
    } else {
        Verdict::Stream
    }
}

/// How many bytes of a received buffer still belong to the cell: all of them
/// for an unknown end, else only up to the (possibly shrunk) end.
pub open spec fn usable_bytes(cur_end: u64, cursor: u64, buf_len: nat) -> nat {
    if cur_end == UNKNOWN_END {
        buf_len
    } else {
        let room: nat = if cur_end >= cursor {
            (cur_end - cursor) as nat
        } else {
            0
        };
        if room < buf_len {
            room
        } else {
            buf_len
        }
    }
}

pub fn usable(cur_end: u64, cursor: u64, buf_len: usize) -> (r: usize)
    ensures
        r == usable_bytes(cur_end, cursor, buf_len as nat),
        r <= buf_len,
{
    if cur_end == UNKNOWN_END {
        buf_len
    } else {
        let room = cur_end.saturating_sub(cursor);
        if room < buf_len as u64 {
            room as usize
        } else {
            buf_len
        }
    }
}

/// A response announcing `content_length` more bytes from `pos` fixes the
/// total of a task whose total is still unknown.
pub open spec fn discovered_total(pos: u64, content_length: Option<u64>, current_total: i64) -> Option<u64> {
    match content_length {
        Some(cl) => if cl > 0 && current_total <= 0 && pos + cl <= u64::MAX {
            Some((pos + cl) as u64)
        } else {
            None
        },
        None => None,
    }
}

pub fn total_from_response(pos: u64, content_length: Option<u64>, current_total: i64) -> (r: Option<u64>)
    ensures
        r == discovered_total(pos, content_length, current_total),
{
    match content_length {
        Some(cl) => {
            if cl > 0 && current_total <= 0 && cl <= u64::MAX - pos {
                Some(pos + cl)
            } else {
                None
            }
        },
        None => None,
    }
}

/// A task with a single cell of unknown end adopts a discovered total as that cell's end.
pub fn adopt_total(cells: &mut Vec<Cell>, total: u64)
    ensures
        (old(cells)@.len() == 1 && old(cells)@[0].end == UNKNOWN_END) ==> final(cells)@ == old(
            cells,
        )@.update(0, Cell { end: total, ..old(cells)@[0] }),
        !(old(cells)@.len() == 1 && old(cells)@[0].end == UNKNOWN_END) ==> final(cells)@ == old(
            cells,
        )@,
{
    if cells.len() == 1 && cells[0].end == UNKNOWN_END {
        let mut c = cells[0];
        c.end = total;
        cells.set(0, c);
    }
}

/// How one pass over a response stream ended.
#[derive(Clone, Copy, Debug, PartialEq, Eq, Structural)]
pub struct StreamEnd {
    pub stopped: bool,
    pub paused: bool,
    pub eof: bool,
    pub errored: bool,
    pub progressed: bool,
}

/// What a connection does after a pass over the stream.
#[derive(Clone, Copy, Debug, PartialEq, Eq, Structural)]
pub enum AfterStream {
    Stopped,
    /// stream of unknown size ended: the file has this many bytes
    Finalize(u64),
    /// back off this many failures, then reconnect
    Retry(u32),
    /// too many failures in a row
    GiveUp,
    Done,
    Paused,
    /// reconnect at once, failure count reset
    Continue,
}

pub open spec fn after_stream_spec(e: StreamEnd, unknown_end: bool, cur_end: u64, cursor: u64, attempts: u32) -> AfterStream {
    if e.stopped {
        AfterStream::Stopped
    } else if e.eof && unknown_end {
        AfterStream::Finalize(cursor)
    } else if e.errored {
        let a: int = if e.progressed {
            1
        } else {
            attempts + 1
        };
        if a > MAX_CONSECUTIVE_FAILURES {
            AfterStream::GiveUp
        } else {
            AfterStream::Retry(a as u32)
        }
    } else if !e.paused && cur_end != UNKNOWN_END && cursor >= cur_end {
        AfterStream::Done
    } else if e.paused {
        AfterStream::Paused
    } else {
        AfterStream::Continue
    }
}

pub fn after_stream(e: StreamEnd, cur_end: u64, cursor: u64, attempts: u32) -> (r: AfterStream)
    requires
        attempts < u32::MAX,
    ensures
        r == after_stream_spec(e, cur_end == UNKNOWN_END, cur_end, cursor, attempts),
{
    if e.stopped {
        AfterStream::Stopped
    } else if e.eof && cur_end == UNKNOWN_END {
        AfterStream::Finalize(cursor)
    } else if e.errored {
        let a: u32 = if e.progressed {
            1
        } else {
            attempts + 1
        };
        if a > MAX_CONSECUTIVE_FAILURES {
            AfterStream::GiveUp
        } else {
            AfterStream::Retry(a)
        }
    } else if !e.paused && cur_end != UNKNOWN_END && cursor >= cur_end {
        AfterStream::Done
    } else if e.paused {
        AfterStream::Paused
    } else {
        AfterStream::Continue
    }
}

/// A cell whose stream of unknown size ended after `total` bytes becomes `[0, total)`.
pub fn finalize_unknown(c: &mut Cell, total: u64)
    ensures
        *final(c) == (Cell { start: 0, end: total, ..*old(c) }),
{
    c.start = 0;
    c.end = total;
}

/// Base back-off before retry number `attempt`: 250 ms doubling, capped at 8 s.
pub open spec fn backoff_base(attempt: u32) -> nat {
    let e: nat = if attempt < 5 {
        attempt as nat
    } else {
        5
    };
    250 * vstd::arithmetic::power2::pow2(e)
}

pub open spec fn backoff_jitter_max(attempt: u32) -> nat {
    let h = backoff_base(attempt) / 2;
    if h < 1 {
        1
    } else {
        h
    }
}

pub open spec fn backoff_floor(attempt: u32) -> nat {
    if backoff_base(attempt) < 8000 {
        backoff_base(attempt)
    } else {
        8000
    }
}

fn base_delay(attempt: u32) -> (r: u64)
    ensures
        r == backoff_base(attempt),
        r <= 8000,
{
    let e: u32 = if attempt < 5 {
        attempt
    } else {
        5
    };
    let mut b: u64 = 250;
    let mut k: u32 = 0;
    proof {
        vstd::arithmetic::power2::lemma2_to64();
    }
    while k < e
        invariant
            k <= e <= 5,
            b == 250 * vstd::arithmetic::power2::pow2(k as nat),
        decreases e - k,
    {
        proof {
            vstd::arithmetic::power2::lemma_pow2_unfold((k + 1) as nat);
            vstd::arithmetic::power2::lemma2_to64();
        }
        b = b * 2;
        k = k + 1;
    }
    proof {
        vstd::arithmetic::power2::lemma2_to64();
    }
    b
}

/// A uniformly drawn number in `0..=max` (rand's `gen_range` on an inclusive range).
#[verifier::external_body]
fn random_upto(max: u64) -> (r: u64)
    ensures
        r <= max,
{
    rand::Rng::gen_range(&mut rand::thread_rng(), 0..=max)
}

/// Milliseconds to wait before retry number `attempt`: the capped base plus
/// a random jitter of up to half the base.
pub fn backoff_ms(attempt: u32) -> (r: u64)
    ensures
        backoff_floor(attempt) <= r <= backoff_floor(attempt) + backoff_jitter_max(attempt),
{
    let base = base_delay(attempt);
    let half = base / 2;
    let bound = if half < 1 {
        1
    } else {
        half
    };
    let jitter = random_upto(bound);
    let floor = if base < 8000 {
        base
    } else {
        8000
    };
    floor + jitter
}


/// After a failed connection attempt: the new failure count when another
/// attempt is allowed, `None` when the connection gives up.
pub fn after_connect_failure(attempts: u32) -> (r: Option<u32>)
    requires
        attempts < u32::MAX,
    ensures
        attempts + 1 > MAX_CONSECUTIVE_FAILURES ==> r is None,
        attempts + 1 <= MAX_CONSECUTIVE_FAILURES ==> r == Some((attempts + 1) as u32),
{
    let a = attempts + 1;
    if a > MAX_CONSECUTIVE_FAILURES {
        None
    } else {
        Some(a)
    }
}

/// A cell with a known end has nothing left to fetch.
pub fn cell_finished(c: &Cell) -> (r: bool)
    requires
        cell_ok(*c),
    ensures
        r == (c.end != UNKNOWN_END && pos_of(*c) >= c.end),
{
    c.end != UNKNOWN_END && c.start + c.done >= c.end
}

/// A worker lets go of the cell it drove.
pub fn release_cell(cells: &mut Vec<Cell>, i: usize)
    requires
        i < old(cells)@.len(),
    ensures
        final(cells)@ == old(cells)@.update(i as int, Cell { active: false, ..old(cells)@[i as int] }),
{
    let mut c = cells[i];
    c.active = false;
    cells.set(i, c);
}

/// Bytes written since the last save reach the save interval.
pub fn should_persist(written_since: u64) -> (r: bool)
    ensures
        r == (written_since >= PERSIST_EVERY),
{
    written_since >= PERSIST_EVERY
}

/// Where a (re)connecting worker writes in its cell: right after what the
/// cell already holds.
pub fn start_write(c: &Cell) -> (pos: u64)
    requires
        pos_of(*c) <= u64::MAX,
    ensures
        pos == pos_of(*c),
{
    c.start + c.done
}

/// Rate limiting (429), unavailability (503) and any other server error
/// (5xx) are retried while a connection that is not resuming mid-file has
/// failed fewer than six times in a row.
pub proof fn lemma_busy_servers_are_retried(ranged: bool, pos: u64, status: u16, attempts: u32)
    requires
        status == 429 || status == 503 || (500 <= status && status <= 599),
        !(ranged && pos > 0),
        attempts < 6,
    ensures
        verdict(ranged, pos, status, attempts) == Verdict::Retry,
{
}

/// How a response is judged: a connection not resuming mid-file streams
/// any 2xx answer; any other status outside 2xx, 429 and 5xx fails at
/// once as an HTTP failure; a resuming connection retries anything but 206
/// until its sixth failure in a row; and after six failures in a row
/// nothing is retried.
pub proof fn lemma_response_verdicts(ranged: bool, pos: u64, status: u16, attempts: u32)
    ensures
        !(ranged && pos > 0) && 200 <= status <= 299 ==> verdict(ranged, pos, status, attempts)
            == Verdict::Stream,
        !(ranged && pos > 0) && !(200 <= status <= 299) && status != 429 && !(500 <= status <= 599)
            ==> verdict(ranged, pos, status, attempts) == Verdict::Fail(Refusal::Http),
        ranged && pos > 0 && status == 206 ==> verdict(ranged, pos, status, attempts) == Verdict::Stream,
        ranged && pos > 0 && status != 206 && attempts < 6 ==> verdict(ranged, pos, status, attempts)
            == Verdict::Retry,
        attempts >= 6 ==> verdict(ranged, pos, status, attempts) != Verdict::Retry,
{
}

/// A thief takes the later half of the largest remainder: its victim is an
/// active cell with more than 2 MiB left and at least as much left as any
/// other active cell; afterwards the victim keeps the first half (rounded
/// down) of what it had left, a new active, empty cell numbered after the
/// existing ones covers the rest up to the victim's old end, and every
/// other cell is unchanged.
pub proof fn lemma_thief_takes_half_of_the_largest(cells: Seq<Cell>, v: int)
    requires
        steal_target(cells, v),
    ensures
        cells[v].active,
        rem_of(cells[v]) > 2097152,
        forall|j: int| 0 <= j < cells.len() && (#[trigger] cells[j]).active ==> rem_of(cells[j]) <= rem_of(cells[v]),
        ({
            let a = after_steal(cells, v);
            let n = cells.len() as int;
            let pos = cells[v].start + cells[v].done;
            let rem = cells[v].end - pos;
            &&& a.len() == n + 1
            &&& a[v].start == cells[v].start && a[v].done == cells[v].done && a[v].active == cells[v].active
            &&& a[v].end == pos + rem / 2
            &&& a[n].start == pos + rem / 2 && a[n].end == cells[v].end
            &&& a[n].done == 0 && a[n].active && a[n].idx == n as usize
            &&& forall|j: int| 0 <= j < n && j != v ==> #[trigger] a[j] == cells[j]
        }),
{
    let c = cells[v];
    let pos = c.start + c.done;
    assert(c.end > pos);
    assert(pos + (c.end - pos) / 2 <= c.end);
    assert(split_point(c) == pos + (c.end - pos) / 2);
}

/// The `Range` a connection asks for: with ranges and a known end, bytes
/// `pos` through `end - 1` inclusive; with ranges and an unknown end,
/// everything from `pos` on; without ranges, none.
pub proof fn lemma_range_requests(ranged: bool, pos: u64, end: u64)
    ensures
        ranged && end != UNKNOWN_END ==> range_header(ranged, pos, end) == Some(
            "bytes="@ + dec(pos as nat) + "-"@ + dec((end - 1) as nat),
        ),
        ranged && end == UNKNOWN_END ==> range_header(ranged, pos, end) == Some(
            "bytes="@ + dec(pos as nat) + "-"@,
        ),
        !ranged ==> range_header(ranged, pos, end) is None,
{
}

/// The `If-Range` validator: a weak ETag (`W/` or `w/`) is never sent; a
/// strong ETag is preferred to the Last-Modified date; without either
/// nothing is sent.
pub proof fn lemma_if_range_validator(etag: Seq<char>, last_modified: Seq<char>)
    ensures
        if_range(etag, last_modified) matches Some(x) ==> (x == etag || x == last_modified),
        if_range(etag, last_modified) == Some(etag) && etag != last_modified ==> etag.len() > 0
            && !starts_with(etag, "W/"@) && !starts_with(etag, "w/"@),
        etag.len() > 0 && !starts_with(etag, "W/"@) && !starts_with(etag, "w/"@) ==> if_range(
            etag,
            last_modified,
        ) == Some(etag),
        (etag.len() == 0 || starts_with(etag, "W/"@) || starts_with(etag, "w/"@)) && last_modified.len()
            > 0 ==> if_range(etag, last_modified) == Some(last_modified),
        (etag.len() == 0 || starts_with(etag, "W/"@) || starts_with(etag, "w/"@)) && last_modified.len()
            == 0 ==> if_range(etag, last_modified) is None,
{
}

/// Back-off before retry number `attempt`: 250 ms, doubling with each
/// retry up to 8 s from the fifth on, plus a jitter of at most half that
/// base; it never shrinks as retries go on.
pub proof fn lemma_backoff_doubles_up_to_eight_seconds(attempt: u32, later: u32)
    ensures
        attempt == 0 ==> backoff_floor(attempt) == 250,
        attempt == 1 ==> backoff_floor(attempt) == 500,
        attempt == 2 ==> backoff_floor(attempt) == 1000,
        attempt == 3 ==> backoff_floor(attempt) == 2000,
        attempt == 4 ==> backoff_floor(attempt) == 4000,
        attempt >= 5 ==> backoff_floor(attempt) == 8000,
        backoff_jitter_max(attempt) == backoff_floor(attempt) / 2,
        attempt <= later ==> backoff_floor(attempt) <= backoff_floor(later),
{
    vstd::arithmetic::power2::lemma2_to64();
}

/// Progress is saved after every 256 KiB written, a connection retries
/// six times and gives up on its seventh failure in a row, and a
/// remainder is split only when it exceeds 2 MiB.
pub proof fn lemma_save_and_give_up_thresholds(written_since: u64, attempts: u32)
    ensures
        (written_since >= 262144) == (written_since >= PERSIST_EVERY),
        attempts >= 6 <==> attempts + 1 > MAX_CONSECUTIVE_FAILURES,
        2 * MIN_SPLIT == 2097152,
{
}

} // verus!
