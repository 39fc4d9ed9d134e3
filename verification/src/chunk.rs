//! Partitioning a file into fixed-size byte ranges.

use vstd::prelude::*;

verus! {

/// Size of one upload slice: 5 MiB.
pub const SLICE_SIZE: u64 = 5 * 1024 * 1024;

/// Number of slices a file of `size` bytes is cut into: `ceil(size / SLICE_SIZE)`.
pub open spec fn slice_count_spec(size: u64) -> int {
    (size + SLICE_SIZE - 1) / (SLICE_SIZE as int)
}

/// Computes `ceil(size / SLICE_SIZE)` without overflow.
pub fn slice_count(size: u64) -> (n: u64)
    ensures
        n == slice_count_spec(size),
{
    let q: u64 = size / SLICE_SIZE;
    let r: u64 = size % SLICE_SIZE;
    proof {
        let s = size as int;
        let d = SLICE_SIZE as int;
        vstd::arithmetic::div_mod::lemma_fundamental_div_mod(s, d);
        assert(s == d * (q as int) + r as int);
        if r == 0 {
            assert(s + d - 1 == (q as int) * d + (d - 1)) by (nonlinear_arith)
                requires s == d * (q as int), d == (SLICE_SIZE as int),
            ;
            vstd::arithmetic::div_mod::lemma_fundamental_div_mod_converse(
                s + d - 1, d, q as int, d - 1);
        } else {
            assert(s + d - 1 == (q as int + 1) * d + (r as int - 1)) by (nonlinear_arith)
                requires s == d * (q as int) + r as int, d == (SLICE_SIZE as int),
            ;
            vstd::arithmetic::div_mod::lemma_fundamental_div_mod_converse(
                s + d - 1, d, q as int + 1, r as int - 1);
            assert(q as int + 1 <= u64::MAX) by (nonlinear_arith)
                requires
                    s == d * (q as int) + r as int,
                    0 <= (r as int) < d,
                    d == (SLICE_SIZE as int),
                    s <= u64::MAX,
                    q as int >= 0,
            ;
        }
    }
    if r == 0 {
        q
    } else {
        q + 1
    }
}

/// A file has no chunks exactly when it is empty.
pub proof fn lemma_slice_count_basics(total: u64)
    ensures
        slice_count_spec(total) >= 0,
        (slice_count_spec(total) == 0) <==> (total == 0),
{
    let s = total as int;
    let d = SLICE_SIZE as int;
    if s == 0 {
        vstd::arithmetic::div_mod::lemma_fundamental_div_mod_converse(d - 1, d, 0, d - 1);
    } else {
        vstd::arithmetic::div_mod::lemma_div_non_zero(s + d - 1, d);
    }
}

/// First byte offset of the chunk with ordinal `index`.
pub open spec fn chunk_start_spec(index: int) -> int {
    index * SLICE_SIZE
}

/// One-past-the-last byte offset of the chunk with ordinal `index` in a file
/// of `total` bytes: the range is clipped to the end of the file.
pub open spec fn chunk_end_spec(index: int, total: u64) -> int {
    if (index + 1) * SLICE_SIZE <= total {
        (index + 1) * SLICE_SIZE
    } else {
        total as int
    }
}

/// One byte-range transfer unit: chunk `index` of a file of `total` bytes
/// covers `[start, end)`.
pub struct ChunkRange {
    pub index: u64,
    pub start: u64,
    pub end: u64,
    pub total: u64,
}

impl ChunkRange {
    /// The range is the `index`-th slice of a file of `total` bytes.
    pub open spec fn wf(self) -> bool {
        &&& self.index < slice_count_spec(self.total)
        &&& self.start == chunk_start_spec(self.index as int)
        &&& self.end == chunk_end_spec(self.index as int, self.total)
    }

    /// Number of bytes the range carries.
    pub open spec fn len_spec(self) -> int {
        self.end - self.start
    }

    /// Number of bytes the range carries; also the Content-Length of its request.
    pub fn byte_len(&self) -> (n: u64)
        requires
            self.wf(),
        ensures
            n == self.len_spec(),
    {
        proof { lemma_chunk_bounds(self.index as int, self.total); }
        self.end - self.start
    }
}

/// Bounds of one chunk: every chunk is non-empty, lies inside the file,
/// has exactly `SLICE_SIZE` bytes unless it is the last, and the last one
/// ends exactly at the end of the file.
pub proof fn lemma_chunk_bounds(index: int, total: u64)
    requires
        0 <= index < slice_count_spec(total),
    ensures
        0 <= chunk_start_spec(index) < chunk_end_spec(index, total) <= total,
        index + 1 < slice_count_spec(total)
            ==> chunk_end_spec(index, total) == chunk_start_spec(index) + SLICE_SIZE,
        index + 1 == slice_count_spec(total) ==> chunk_end_spec(index, total) == total,
{
    let s = total as int;
    let d = SLICE_SIZE as int;
    let c = slice_count_spec(total);
    vstd::arithmetic::div_mod::lemma_fundamental_div_mod(s + d - 1, d);
    assert((s + d - 1) == d * c + ((s + d - 1) % d));
    assert(0 <= (s + d - 1) % d < d) by {
        vstd::arithmetic::div_mod::lemma_mod_bound(s + d - 1, d);
    }
    assert(index * d >= 0 && (index + 1) * d <= d * c) by (nonlinear_arith)
        requires 0 <= index < c, d == (SLICE_SIZE as int),
    ;
    assert(d * c <= s + d - 1);
    assert((index + 1) * d == index * d + d) by (nonlinear_arith);
    assert(index * d <= s - 1);
    if index + 1 < c {
        assert((index + 2) * d <= d * c) by (nonlinear_arith)
            requires index + 2 <= c, d == (SLICE_SIZE as int),
        ;
        assert((index + 2) * d == index * d + 2 * d) by (nonlinear_arith);
        assert((index + 1) * d <= s - 1);
        assert(chunk_end_spec(index, total) == (index + 1) * d);
    }
    if index + 1 == c {
        assert(d * c == (index + 1) * d) by (nonlinear_arith)
            requires c == index + 1,
        ;
        assert((index + 1) * d >= s);
        assert(chunk_end_spec(index, total) == s);
    }
}

/// Computes the byte range of chunk `index` of a file of `total` bytes.
pub fn chunk_range(index: u64, total: u64) -> (c: ChunkRange)
    requires
        index < slice_count_spec(total),
    ensures
        c.wf(),
        c.index == index,
        c.total == total,
        c.start == chunk_start_spec(index as int),
        c.end == chunk_end_spec(index as int, total),
        c.start < c.end <= total,
{
    proof {
        lemma_chunk_bounds(index as int, total);
        assert((index as int + 1) * (SLICE_SIZE as int)
            == index as int * (SLICE_SIZE as int) + SLICE_SIZE) by (nonlinear_arith);
    }
    let start: u64 = index * SLICE_SIZE;
    let end: u64 = if total - start >= SLICE_SIZE {
        start + SLICE_SIZE
    } else {
        total
    };
    ChunkRange { index, start, end, total }
}

/// Ordinal of the chunk that carries byte `b`.
pub open spec fn chunk_index_of(b: int) -> int {
    b / (SLICE_SIZE as int)
}

/// The ranges of a file's chunks exactly partition `[0, total)`: they are
/// contiguous, non-overlapping, and cover every byte of the file; each byte
/// `b` lies in exactly one chunk, the one with ordinal `b / SLICE_SIZE`.
pub proof fn lemma_chunks_partition(total: u64)
    ensures
        total == 0 ==> slice_count_spec(total) == 0,
        forall|i: int| 0 <= i < slice_count_spec(total)
            ==> 0 <= chunk_start_spec(i) < #[trigger] chunk_end_spec(i, total) <= total,
        forall|i: int| 0 < i < slice_count_spec(total)
            ==> chunk_start_spec(i) == #[trigger] chunk_end_spec(i - 1, total),
        slice_count_spec(total) > 0
            ==> chunk_end_spec(slice_count_spec(total) - 1, total) == total,
        forall|b: int| 0 <= b < total ==> {
            let i = #[trigger] chunk_index_of(b);
            0 <= i < slice_count_spec(total)
                && chunk_start_spec(i) <= b < chunk_end_spec(i, total)
        },
        forall|b: int, i: int|
            #![trigger chunk_start_spec(i), chunk_index_of(b)]
            0 <= i < slice_count_spec(total)
                && chunk_start_spec(i) <= b < chunk_end_spec(i, total)
            ==> i == chunk_index_of(b),
{
    let s = total as int;
    let d = SLICE_SIZE as int;
    let c = slice_count_spec(total);
    assert forall|i: int| 0 <= i < c
        implies 0 <= chunk_start_spec(i) < #[trigger] chunk_end_spec(i, total) <= s by {
        lemma_chunk_bounds(i, total);
    }
    assert forall|i: int| 0 < i < c
        implies chunk_start_spec(i) == #[trigger] chunk_end_spec(i - 1, total) by {
        lemma_chunk_bounds(i - 1, total);
        assert((i - 1) * d + d == i * d) by (nonlinear_arith);
        assert(((i - 1) + 1) * d == i * d) by (nonlinear_arith);
    }
    if c > 0 {
        lemma_chunk_bounds(c - 1, total);
    }
    assert forall|b: int| 0 <= b < total implies {
        let i = #[trigger] chunk_index_of(b);
        0 <= i < c && chunk_start_spec(i) <= b < chunk_end_spec(i, total)
    } by {
        let i = chunk_index_of(b);
        vstd::arithmetic::div_mod::lemma_fundamental_div_mod(b, d);
        vstd::arithmetic::div_mod::lemma_mod_bound(b, d);
        assert(b == d * i + b % d);
        assert(i >= 0) by (nonlinear_arith)
            requires b == d * i + b % d, 0 <= b % d < d, b >= 0, d > 0,
        ;
        assert(i * d <= b < i * d + d) by (nonlinear_arith)
            requires b == d * i + b % d, 0 <= b % d < d,
        ;
        assert((i + 1) * d == i * d + d) by (nonlinear_arith);
        // i < c: since b < s and b >= i * d, i * d < s, so i < c.
        vstd::arithmetic::div_mod::lemma_fundamental_div_mod(s + d - 1, d);
        vstd::arithmetic::div_mod::lemma_mod_bound(s + d - 1, d);
        assert(i < c) by (nonlinear_arith)
            requires
                i * d <= b,
                b < s,
                s + d - 1 == d * c + ((s + d - 1) % d),
                0 <= (s + d - 1) % d < d,
        ;
        assert(chunk_start_spec(i) <= b);
        if (i + 1) * d <= s {
            assert(b < chunk_end_spec(i, total));
        } else {
            assert(b < chunk_end_spec(i, total));
        }
    }
    assert forall|b: int, i: int|
        #![trigger chunk_start_spec(i), chunk_index_of(b)]
        0 <= i < c && chunk_start_spec(i) <= b < chunk_end_spec(i, total)
        implies i == chunk_index_of(b) by {
        lemma_chunk_bounds(i, total);
        assert((i + 1) * d == i * d + d) by (nonlinear_arith);
        assert(i * d <= b < i * d + d);
        assert(b == d * i + (b - d * i));
        vstd::arithmetic::div_mod::lemma_fundamental_div_mod_converse(b, d, i, b - d * i);
    }
}

} // verus!
