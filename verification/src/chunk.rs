//! Planning of chunked transfers.
//!
//! A destination that caps the payload size per request receives a large
//! asset as a sequence of contiguous, non-overlapping byte ranges, submitted
//! in ascending order. This module computes that plan and proves that it
//! partitions the asset exactly.

use vstd::prelude::*;

use vstd::arithmetic::div_mod::{
    lemma_basic_div, lemma_div_pos_is_pos, lemma_fundamental_div_mod,
    lemma_fundamental_div_mod_converse,
};
use vstd::arithmetic::mul::lemma_mul_inequality;

verus! {

/// One contiguous byte range of an asset, submitted as a single request.
#[derive(Clone, Copy, Debug, PartialEq, Eq, Structural)]
pub struct ChunkRange {
    /// Offset of the first byte of the range within the asset.
    pub start: u64,
    /// Number of bytes in the range; always positive.
    pub len: u64,
}

/// Number of chunks needed to carry `total` bytes when at most `ceiling`
/// bytes fit in one request: the quotient of `total` by `ceiling`, rounded
/// up.
pub open spec fn chunk_count(total: nat, ceiling: nat) -> nat
    recommends
        ceiling > 0,
{
    ((total + ceiling - 1) / (ceiling as int)) as nat
}

/// Offset at which chunk `i` of a plan with the given `ceiling` begins.
pub open spec fn chunk_start(ceiling: nat, i: nat) -> nat {
    i * ceiling
}

/// Length of chunk `i`: a full `ceiling`, except for the final chunk, which
/// carries whatever remains.
pub open spec fn chunk_len(total: nat, ceiling: nat, i: nat) -> nat
    recommends
        ceiling > 0,
        i < chunk_count(total, ceiling),
{
    if i + 1 == chunk_count(total, ceiling) {
        (total - i * ceiling) as nat
    } else {
        ceiling
    }
}

/// An empty asset needs no chunks.
pub proof fn lemma_chunk_count_empty(ceiling: nat)
    requires
        ceiling > 0,
    ensures
        chunk_count(0, ceiling) == 0,
{
    lemma_basic_div(ceiling as int - 1, ceiling as int);
}

/// The rounded-up quotient equals the rounded-down quotient of `total - 1`,
/// plus one.
proof fn lemma_chunk_count_value(total: nat, ceiling: nat)
    requires
        ceiling > 0,
        total > 0,
    ensures
        chunk_count(total, ceiling) == (total - 1) / (ceiling as int) + 1,
{
    let t = total as int;
    let c = ceiling as int;
    let q = (t - 1) / c;
    let r = (t - 1) % c;
    lemma_fundamental_div_mod(t - 1, c);
    lemma_div_pos_is_pos(t - 1, c);
    assert((q + 1) * c == c * q + c) by (nonlinear_arith);
    lemma_fundamental_div_mod_converse(t + c - 1, c, q + 1, r);
}

/// The chunk count is positive and brackets the asset size: the first
/// `count - 1` chunks do not reach the end of the asset, and `count` chunks
/// of a full `ceiling` would cover it.
pub proof fn lemma_chunk_count_bounds(total: nat, ceiling: nat)
    requires
        ceiling > 0,
        total > 0,
    ensures
        chunk_count(total, ceiling) >= 1,
        (chunk_count(total, ceiling) - 1) * ceiling < total,
        total <= chunk_count(total, ceiling) * ceiling,
{
    let t = total as int;
    let c = ceiling as int;
    let q = (t - 1) / c;
    let r = (t - 1) % c;
    lemma_chunk_count_value(total, ceiling);
    lemma_fundamental_div_mod(t - 1, c);
    lemma_div_pos_is_pos(t - 1, c);
    assert(q * c == c * q) by (nonlinear_arith);
    assert((q + 1) * c == c * q + c) by (nonlinear_arith);
}

/// Each chunk ends exactly where the next one begins.
pub proof fn lemma_chunks_contiguous(total: nat, ceiling: nat, i: nat)
    requires
        ceiling > 0,
        i + 1 < chunk_count(total, ceiling),
    ensures
        chunk_start(ceiling, i) + chunk_len(total, ceiling, i) == chunk_start(ceiling, i + 1),
{
    assert((i + 1) * ceiling == i * ceiling + ceiling) by (nonlinear_arith);
}

/// The final chunk ends exactly at the end of the asset, so the plan covers
/// every byte of it.
pub proof fn lemma_chunks_cover(total: nat, ceiling: nat)
    requires
        ceiling > 0,
        total > 0,
    ensures
        ({
            let last = (chunk_count(total, ceiling) - 1) as nat;
            chunk_start(ceiling, last) + chunk_len(total, ceiling, last) == total
        }),
{
    lemma_chunk_count_bounds(total, ceiling);
}

/// Chunks never overlap: an earlier chunk ends at or before the start of any
/// later one.
pub proof fn lemma_chunks_disjoint(total: nat, ceiling: nat, i: nat, j: nat)
    requires
        ceiling > 0,
        total > 0,
        i < j < chunk_count(total, ceiling),
    ensures
        chunk_start(ceiling, i) + chunk_len(total, ceiling, i) <= chunk_start(ceiling, j),
{
    lemma_chunks_contiguous(total, ceiling, i);
    lemma_mul_inequality(i as int + 1, j as int, ceiling as int);
}

/// The last chunk carries `total % ceiling` bytes, or a full `ceiling` when
/// the asset size divides evenly.
pub proof fn lemma_last_chunk_len(total: nat, ceiling: nat)
    requires
        ceiling > 0,
        total > 0,
    ensures
        chunk_len(total, ceiling, (chunk_count(total, ceiling) - 1) as nat) == if total
            % ceiling == 0 {
            ceiling as nat
        } else {
            total % ceiling
        },
{
    let t = total as int;
    let c = ceiling as int;
    let q = t / c;
    let r = t % c;
    lemma_fundamental_div_mod(t, c);
    lemma_div_pos_is_pos(t, c);
    if r == 0 {
        assert(q * c == c * q) by (nonlinear_arith);
        lemma_fundamental_div_mod_converse(t + c - 1, c, q, c - 1);
        assert(chunk_count(total, ceiling) == q);
        assert(q >= 1) by (nonlinear_arith)
            requires
                c * q == t,
                t >= 1,
                c >= 1,
        ;
        assert((q - 1) * c == q * c - c) by (nonlinear_arith);
    } else {
        assert((q + 1) * c == c * q + c) by (nonlinear_arith);
        lemma_fundamental_div_mod_converse(t + c - 1, c, q + 1, r - 1);
        assert(chunk_count(total, ceiling) == q + 1);
        assert(q * c == c * q) by (nonlinear_arith);
    }
}

/// Total number of bytes carried by the first `k` chunks of the plan.
pub open spec fn chunk_len_sum(total: nat, ceiling: nat, k: nat) -> nat
    decreases k,
{
    if k == 0 {
        0
    } else {
        chunk_len_sum(total, ceiling, (k - 1) as nat) + chunk_len(total, ceiling, (k - 1) as nat)
    }
}

/// The first `k` chunks of the plan carry `k * ceiling` bytes as long as the
/// final chunk is not among them.
proof fn lemma_full_chunks_sum(total: nat, ceiling: nat, k: nat)
    requires
        ceiling > 0,
        k < chunk_count(total, ceiling),
    ensures
        chunk_len_sum(total, ceiling, k) == k * ceiling,
    decreases k,
{
    if k == 0 {
    } else {
        lemma_full_chunks_sum(total, ceiling, (k - 1) as nat);
        assert(k * ceiling == (k - 1) * ceiling + ceiling) by (nonlinear_arith);
    }
}

/// The whole plan carries exactly the asset: the chunk lengths sum to
/// `total`.
pub proof fn lemma_chunks_sum_to_total(total: nat, ceiling: nat)
    requires
        ceiling > 0,
        total > 0,
    ensures
        chunk_len_sum(total, ceiling, chunk_count(total, ceiling)) == total,
{
    lemma_chunk_count_bounds(total, ceiling);
    let n = chunk_count(total, ceiling);
    lemma_full_chunks_sum(total, ceiling, (n - 1) as nat);
}

/// Compute the chunk plan for an asset of `total` bytes against a
/// per-request `ceiling`: `ceil(total / ceiling)` ranges, each starting
/// where the previous one ended, all of length `ceiling` except the last,
/// which carries the remainder.
pub fn plan_chunks(total: u64, ceiling: u64) -> (plan: Vec<ChunkRange>)
    requires
        ceiling > 0,
    ensures
        plan@.len() == chunk_count(total as nat, ceiling as nat),
        forall|i: int|
            0 <= i < plan@.len() ==> (#[trigger] plan@[i]).start == chunk_start(
                ceiling as nat,
                i as nat,
            ),
        forall|i: int|
            0 <= i < plan@.len() ==> (#[trigger] plan@[i]).len == chunk_len(
                total as nat,
                ceiling as nat,
                i as nat,
            ),
{
    let mut plan: Vec<ChunkRange> = Vec::new();
    if total == 0 {
        proof {
            lemma_chunk_count_empty(ceiling as nat);
        }
        return plan;
    }
    proof {
        lemma_chunk_count_bounds(total as nat, ceiling as nat);
        lemma_chunk_count_value(total as nat, ceiling as nat);
    }
    let count: u64 = (total - 1) / ceiling + 1;
    let ghost n = chunk_count(total as nat, ceiling as nat);
    let mut i: u64 = 0;
    while i < count
        invariant
            ceiling > 0,
            total > 0,
            count == n,
            n == chunk_count(total as nat, ceiling as nat),
            (n - 1) * ceiling < total,
            total <= n * ceiling,
            i <= count,
            plan@.len() == i,
            forall|j: int|
                0 <= j < plan@.len() ==> (#[trigger] plan@[j]).start == chunk_start(
                    ceiling as nat,
                    j as nat,
                ),
            forall|j: int|
                0 <= j < plan@.len() ==> (#[trigger] plan@[j]).len == chunk_len(
                    total as nat,
                    ceiling as nat,
                    j as nat,
                ),
        decreases count - i,
    {
        proof {
            lemma_mul_inequality(i as int, n as int - 1, ceiling as int);
        }
        let start: u64 = i * ceiling;
        let len: u64 = if i + 1 == count {
            total - start
        } else {
            proof {
                assert((i + 1) * ceiling == i * ceiling + ceiling) by (nonlinear_arith);
                lemma_mul_inequality(i as int + 1, n as int - 1, ceiling as int);
            }
            ceiling
        };
        plan.push(ChunkRange { start, len });
        i = i + 1;
    }
    plan
}

} // verus!
