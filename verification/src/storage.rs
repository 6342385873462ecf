//! Persisted records: task status, task rows, chunk rows, and the initial
//! even split of a file into chunks.
use vstd::prelude::*;
use crate::text::str_eq;

verus! {

/// Lifecycle state of a download task.
#[derive(Clone, Copy, PartialEq, Eq, Debug, Structural)]
pub enum Status {
    Queued,
    Connecting,
    Downloading,
    Paused,
    Completed,
    Error,
}

/// The name under which a status is stored.
pub open spec fn status_name(s: Status) -> Seq<char> {
    match s {
        Status::Queued => "queued"@,
        Status::Connecting => "connecting"@,
        Status::Downloading => "downloading"@,
        Status::Paused => "paused"@,
        Status::Completed => "completed"@,
        Status::Error => "error"@,
    }
}

/// The status a stored name stands for; anything unknown reads as paused.
pub open spec fn status_of(s: Seq<char>) -> Status {
    if s == "queued"@ {
        Status::Queued
    } else if s == "connecting"@ {
        Status::Connecting
    } else if s == "downloading"@ {
        Status::Downloading
    } else if s == "completed"@ {
        Status::Completed
    } else if s == "error"@ {
        Status::Error
    } else {
        Status::Paused
    }
}

impl Status {
    pub fn as_str(&self) -> (r: &'static str)
        ensures
            r@ == status_name(*self),
    {
        match self {
            Status::Queued => "queued",
            Status::Connecting => "connecting",
            Status::Downloading => "downloading",
            Status::Paused => "paused",
            Status::Completed => "completed",
            Status::Error => "error",
        }
    }

    pub fn from_str(s: &str) -> (r: Status)
        ensures
            r == status_of(s@),
    {
        if str_eq(s, "queued") {
            Status::Queued
        } else if str_eq(s, "connecting") {
            Status::Connecting
        } else if str_eq(s, "downloading") {
            Status::Downloading
        } else if str_eq(s, "completed") {
            Status::Completed
        } else if str_eq(s, "error") {
            Status::Error
        } else {
            Status::Paused
        }
    }
}

/// Reading back the stored name of a status gives the status itself.
pub proof fn lemma_status_round_trip(s: Status)
    ensures
        status_of(status_name(s)) == s,
{
    reveal_strlit("queued");
    reveal_strlit("connecting");
    reveal_strlit("downloading");
    reveal_strlit("paused");
    reveal_strlit("completed");
    reveal_strlit("error");
    match s {
        Status::Queued => {},
        Status::Connecting => {
            assert("connecting"@[0] != "queued"@[0]);
        },
        Status::Downloading => {
            assert("downloading"@.len() != "queued"@.len());
            assert("downloading"@[0] != "connecting"@[0]);
        },
        Status::Paused => {
            assert("paused"@[0] != "queued"@[0]);
            assert("paused"@[0] != "connecting"@[0]);
            assert("paused"@[0] != "downloading"@[0]);
            assert("paused"@[0] != "completed"@[0]);
            assert("paused"@[0] != "error"@[0]);
        },
        Status::Completed => {
            assert("completed"@[0] != "queued"@[0]);
            assert("completed"@[3] != "connecting"@[3]);
            assert("completed"@[0] != "downloading"@[0]);
        },
        Status::Error => {
            assert("error"@[0] != "queued"@[0]);
            assert("error"@[0] != "connecting"@[0]);
            assert("error"@[0] != "downloading"@[0]);
            assert("error"@[0] != "completed"@[0]);
        },
    }
}

/// Persisted per-task record.
#[derive(Clone, Debug)]
pub struct TaskRow {
    pub id: String,
    pub url: String,
    pub filename: String,
    pub dir: String,
    pub total: i64,
    pub etag: String,
    pub last_modified: String,
    pub accept_ranges: bool,
    pub multi_conn: bool,
    pub status: Status,
    pub created_at: i64,
    pub headers_json: String,
}

/// Persisted byte range of one chunk; `end` is inclusive, `-1` when unknown.
#[derive(Clone, Copy, Debug, PartialEq, Eq, Structural)]
pub struct ChunkRow {
    pub idx: i64,
    pub start: i64,
    pub end: i64,
    pub done: i64,
}

/// Most chunks a file is split into.
pub const MAX_PARTS: usize = 32;

/// How many chunks a file of `total` bytes is split into when `parts` are asked for.
pub open spec fn chunk_count(total: nat, parts: nat) -> nat {
    if total == 0 {
        0
    } else {
        let n = if parts < 1 {
            1
        } else if parts > 32 {
            32
        } else {
            parts
        };
        if n < total {
            n
        } else {
            total
        }
    }
}

/// First byte of chunk `i` of an `n`-way split: the first `total % n` chunks
/// are one byte longer than the rest.
pub open spec fn chunk_start(total: nat, n: nat, i: nat) -> int {
    i * (total / n) + (if i < total % n {
        i
    } else {
        total % n
    }) as int
}

pub open spec fn chunk_len(total: nat, n: nat, i: nat) -> int {
    (total / n) as int + (if i < total % n {
        1int
    } else {
        0int
    })
}

/// The rows of an even split of `[0, total)`, as `default_chunks_n` stores them.
pub open spec fn split_rows_ok(rows: Seq<ChunkRow>, total: nat, parts: nat) -> bool {
    let n = chunk_count(total, parts);
    &&& rows.len() == n
    &&& forall|i: int|
        #![trigger rows[i]]
        0 <= i < n ==> {
            &&& rows[i].idx == i
            &&& rows[i].start == chunk_start(total, n, i as nat) as i64
            &&& rows[i].end == (chunk_start(total, n, i as nat) + chunk_len(total, n, i as nat)
                - 1) as i64
            &&& rows[i].done == 0
        }
}

proof fn lemma_start_step(total: nat, n: nat, i: nat)
    requires
        n > 0,
    ensures
        chunk_start(total, n, i + 1) == chunk_start(total, n, i) + chunk_len(total, n, i),
{
    let q = total / n;
    assert((i + 1) * q == i * q + q) by (nonlinear_arith);
}

proof fn lemma_start_bound(total: nat, n: nat, i: nat)
    requires
        0 < n,
        i <= n,
    ensures
        0 <= chunk_start(total, n, i) <= total,
        i < n ==> chunk_start(total, n, i) + chunk_len(total, n, i) <= total,
{
    vstd::arithmetic::div_mod::lemma_fundamental_div_mod(total as int, n as int);
    assert(i * (total / n) <= n * (total / n)) by (nonlinear_arith)
        requires
            i <= n,
    ;
    assert(0 <= i * (total / n)) by (nonlinear_arith);
    if i < n {
        lemma_start_step(total, n, i);
        assert((i + 1) * (total / n) <= n * (total / n)) by (nonlinear_arith)
            requires
                i + 1 <= n,
        ;
    }
}

pub fn default_chunks_n(total: u64, parts: usize) -> (r: Vec<ChunkRow>)
    ensures
        split_rows_ok(r@, total as nat, parts as nat),
{
    if total == 0 {
        return Vec::new();
    }
    let mut n: u64 = if parts < 1 {
        1
    } else if parts > MAX_PARTS {
        32
    } else {
        parts as u64
    };
    if n > total {
        n = total;
    }
    let ghost nn = n as nat;
    assert(nn == chunk_count(total as nat, parts as nat));
    let base = total / n;
    let rem = total % n;
    let mut out: Vec<ChunkRow> = Vec::new();
    let mut pos: u64 = 0;
    let mut i: u64 = 0;
    while i < n
        invariant
            0 < n <= 32,
            n <= total,
            nn == n,
            base == total / n,
            rem == total % n,
            i <= n,
            pos == chunk_start(total as nat, nn, i as nat),
            out@.len() == i,
            forall|k: int|
                #![trigger out@[k]]
                0 <= k < i ==> {
                    &&& out@[k].idx == k
                    &&& out@[k].start == chunk_start(total as nat, nn, k as nat) as i64
                    &&& out@[k].end == (chunk_start(total as nat, nn, k as nat) + chunk_len(
                        total as nat,
                        nn,
                        k as nat,
                    ) - 1) as i64
                    &&& out@[k].done == 0
                },
        decreases n - i,
    {
        proof {
            lemma_start_bound(total as nat, nn, i as nat);
            lemma_start_step(total as nat, nn, i as nat);
            assert(base >= 1) by (nonlinear_arith)
                requires
                    base == total / n,
                    n <= total,
                    n > 0,
            ;
        }
        let len = base + if i < rem {
            1
        } else {
            0
        };
        let start = pos;
        let end = pos + len - 1;
        out.push(ChunkRow { idx: i as i64, start: start as i64, end: end as i64, done: 0 });
        pos = end + 1;
        i = i + 1;
    }
    out
}

/// Evenly divide `[0, total)` into ranges (inclusive ends), one when no count is asked for.
pub fn default_chunks(total: u64) -> (r: Vec<ChunkRow>)
    ensures
        split_rows_ok(r@, total as nat, 0),
{
    default_chunks_n(total, 0)
}

/// The split covers the file exactly: chunk 0 starts at byte 0, each chunk
/// starts right after the previous one ends, the last ends at byte
/// `total - 1`, every chunk is non-empty, and lengths differ by at most one.
pub proof fn lemma_split_partitions(total: nat, parts: nat, i: nat)
    requires
        total > 0,
        i < chunk_count(total, parts),
    ensures
        chunk_start(total, chunk_count(total, parts), 0) == 0,
        chunk_len(total, chunk_count(total, parts), i) >= 1,
        chunk_start(total, chunk_count(total, parts), i + 1) == chunk_start(
            total,
            chunk_count(total, parts),
            i,
        ) + chunk_len(total, chunk_count(total, parts), i),
        chunk_start(total, chunk_count(total, parts), chunk_count(total, parts)) == total,
        chunk_len(total, chunk_count(total, parts), 0) - 1 <= chunk_len(
            total,
            chunk_count(total, parts),
            i,
        ) <= chunk_len(total, chunk_count(total, parts), 0),
{
    let n = chunk_count(total, parts);
    lemma_start_step(total, n, i);
    vstd::arithmetic::div_mod::lemma_fundamental_div_mod(total as int, n as int);
    assert(total / n >= 1) by (nonlinear_arith)
        requires
            n <= total,
            n > 0,
    ;
    assert(0 * (total / n) == 0);
}


/// Every chunk of a split lies inside the file: `0 <= start <= end < total`,
/// and the stored numbers are exact when the total fits a signed 64-bit row.
pub proof fn lemma_split_rows_in_range(rows: Seq<ChunkRow>, total: nat, parts: nat)
    requires
        split_rows_ok(rows, total, parts),
        total <= i64::MAX,
    ensures
        forall|i: int|
            0 <= i < rows.len() ==> 0 <= (#[trigger] rows[i]).start <= rows[i].end && rows[i].end
                < total && rows[i].idx == i,
{
    let n = chunk_count(total, parts);
    assert forall|i: int| 0 <= i < rows.len() implies 0 <= (#[trigger] rows[i]).start <= rows[i].end
        && rows[i].end < total && rows[i].idx == i by {
        lemma_split_partitions(total, parts, i as nat);
        lemma_start_bound(total, n, i as nat);
    }
}


/// The chunks a stored task is read back with: its stored chunks, or, when
/// none were stored for a multi-connection task, a fresh split of its total
/// (a negative total counts as 0).
pub fn chunks_or_default(stored: Vec<ChunkRow>, multi_conn: bool, total: i64) -> (r: Vec<ChunkRow>)
    ensures
        stored@.len() == 0 && multi_conn ==> split_rows_ok(r@, (if total > 0 {
            total
        } else {
            0
        }) as nat, 0),
        !(stored@.len() == 0 && multi_conn) ==> r@ == stored@,
{
    if stored.len() == 0 && multi_conn {
        let t: u64 = if total > 0 {
            total as u64
        } else {
            0
        };
        default_chunks(t)
    } else {
        stored
    }
}

/// A split has one chunk per requested connection, the request kept within
/// 1..=32, but never more chunks than the file has bytes; an empty file
/// has no chunks.
pub proof fn lemma_split_count(rows: Seq<ChunkRow>, total: nat, parts: nat)
    requires
        split_rows_ok(rows, total, parts),
    ensures
        total == 0 ==> rows.len() == 0,
        ({
            let c: nat = if parts < 1 {
                1
            } else if parts > 32 {
                32
            } else {
                parts
            };
            total > 0 ==> rows.len() <= c && rows.len() <= total && (rows.len() == c || rows.len()
                == total)
        }),
{
}

} // verus!
