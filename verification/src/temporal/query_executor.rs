//! Planning of query execution: how many queries run at once, how filters
//! are batched, and the instant results are reported at.

use vstd::prelude::*;
use crate::time::DateTimeUtc;
use super::dynamodb::query_instant;
use super::query_builder::TemporalQueryBuilder;

verus! {

/// Configuration of query execution.
#[derive(Debug, Clone, Copy)]
pub struct QueryExecutorConfig {
    /// Most queries run at once.
    pub max_concurrent_queries: usize,
    /// Relationship filters per batch.
    pub relationship_batch_size: usize,
    /// Whether queries run in parallel.
    pub enable_parallel: bool,
}

impl Default for QueryExecutorConfig {
    /// Ten queries at once, batches of a hundred filters, in parallel.
    fn default() -> (c: QueryExecutorConfig)
        ensures
            c.max_concurrent_queries == 10,
            c.relationship_batch_size == 100,
            c.enable_parallel,
    {
        QueryExecutorConfig {
            max_concurrent_queries: 10,
            relationship_batch_size: 100,
            enable_parallel: true,
        }
    }
}

/// The instant the results of a builder's query are reported at: its point
/// in time, else the start of its span, else `now`.
pub fn result_instant(builder: &TemporalQueryBuilder, now: DateTimeUtc) -> (t: DateTimeUtc)
    ensures
        t == match query_instant(*builder) {
            Some(x) => x,
            None => now,
        },
{
    match builder.point_in_time {
        Some(ts) => ts,
        None => match builder.time_range {
            Some((start, _)) => start,
            None => now,
        },
    }
}

/// Whether `bounds` cuts `0 .. len` into consecutive pieces of `size`
/// elements, the last one possibly shorter.
pub open spec fn chunked(bounds: Seq<(usize, usize)>, len: nat, size: nat) -> bool {
    &&& size > 0
    &&& bounds.len() == (len + size - 1) / (size as int)
    &&& forall|k: int|
        0 <= k < bounds.len() ==> (#[trigger] bounds[k]).0 == k * size && bounds[k].1 == if (k + 1)
            * size <= len {
            (k + 1) * size
        } else {
            len as int
        }
}

/// The pieces `[start, end)` in which `len` items are processed, `size` at a
/// time, in order.
pub fn chunk_bounds(len: usize, size: usize) -> (r: Vec<(usize, usize)>)
    requires
        size > 0,
    ensures
        chunked(r@, len as nat, size as nat),
{
    let mut r: Vec<(usize, usize)> = Vec::new();
    if len == 0 {
        assert((len + size - 1) / (size as int) == 0) by (nonlinear_arith)
            requires
                len == 0,
                size > 0,
        ;
        return r;
    }
    let mut start: usize = 0;
    let ghost mut k: int = 0;
    loop
        invariant_except_break
            start == k * size,
            start < len,
        invariant
            size > 0,
            len > 0,
            r@.len() == k,
            forall|j: int|
                0 <= j < k ==> (#[trigger] r@[j]).0 == j * size && r@[j].1 == if (j + 1) * size
                    <= len {
                    (j + 1) * size
                } else {
                    len as int
                },
        ensures
            r@.len() == k,
            k >= 1,
            k * size >= len,
            (k - 1) * size < len,
        decreases len - start,
    {
        let rest = len - start;
        proof {
            assert((k + 1) * size == k * size + size) by (nonlinear_arith);
        }
        if rest <= size {
            r.push((start, len));
            proof {
                k = k + 1;
            }
            break;
        }
        r.push((start, start + size));
        start = start + size;
        proof {
            k = k + 1;
        }
    }
    proof {
        assert(r@.len() == (len + size - 1) / (size as int)) by (nonlinear_arith)
            requires
                r@.len() == k,
                k * size >= len,
                (k - 1) * size < len,
                size > 0,
        ;
    }
    r
}

} // verus!
