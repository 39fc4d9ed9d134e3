//! The exact header strings the wire protocol requires.

use vstd::prelude::*;
use vstd::string::StringExecFns;
use crate::chunk::ChunkRange;
use crate::decimal::{dec_of, u64_to_dec};

verus! {

/// The Content-Range header value for the range `[start, end)` of a file of
/// `total` bytes: `bytes {start}-{end-1}/{total}`.
pub open spec fn content_range_spec(start: int, end: int, total: int) -> Seq<char> {
    "bytes "@ + dec_of(start) + "-"@ + dec_of(end - 1) + "/"@ + dec_of(total)
}

/// Builds the Content-Range header value for one chunk.
pub fn content_range_header(c: &ChunkRange) -> (s: String)
    requires
        c.wf(),
    ensures
        s@ == content_range_spec(c.start as int, c.end as int, c.total as int),
{
    proof { crate::chunk::lemma_chunk_bounds(c.index as int, c.total); }
    let mut s = String::from_str("bytes ");
    s.append(u64_to_dec(c.start).as_str());
    s.append("-");
    s.append(u64_to_dec(c.end - 1).as_str());
    s.append("/");
    s.append(u64_to_dec(c.total).as_str());
    proof {
        assert(s@ =~= content_range_spec(c.start as int, c.end as int, c.total as int));
    }
    s
}

/// Builds the Content-Length header value for one chunk: the decimal length
/// of its byte range.
pub fn content_length_header(c: &ChunkRange) -> (s: String)
    requires
        c.wf(),
    ensures
        s@ == dec_of(c.len_spec()),
{
    u64_to_dec(c.byte_len())
}

/// The Authorization header value carrying the bearer `token`:
/// `Bearer {token}`.
pub open spec fn bearer_spec(token: Seq<char>) -> Seq<char> {
    "Bearer "@ + token
}

/// Builds the Authorization header value for `token`.
pub fn bearer_header(token: &str) -> (s: String)
    ensures
        s@ == bearer_spec(token@),
{
    let mut s = String::from_str("Bearer ");
    s.append(token);
    proof {
        assert(s@ =~= bearer_spec(token@));
    }
    s
}

} // verus!
