//! Integer progress percentages for a streaming download.

use vstd::prelude::*;

verus! {

/// Truncated percentage of `downloaded` out of `total`, pinned to 0 when the
/// total is unknown (zero) and capped at 100 when a stream over-delivers.
pub open spec fn pct(downloaded: u64, total: u64) -> int {
    if total == 0 {
        0
    } else if downloaded as int * 100 / total as int > 100 {
        100
    } else {
        downloaded as int * 100 / total as int
    }
}

pub proof fn lemma_pct_bounds(downloaded: u64, total: u64)
    ensures
        0 <= pct(downloaded, total) <= 100,
{
    if total != 0 {
        vstd::arithmetic::div_mod::lemma_div_pos_is_pos(downloaded as int * 100, total as int);
    }
}

/// More bytes downloaded never lowers the reported percentage.
pub proof fn lemma_pct_monotone(d1: u64, d2: u64, total: u64)
    requires
        d1 <= d2,
    ensures
        pct(d1, total) <= pct(d2, total),
{
    if total != 0 {
        vstd::arithmetic::div_mod::lemma_div_is_ordered(
            d1 as int * 100,
            d2 as int * 100,
            total as int,
        );
    }
}

/// Reported after each chunk: `floor(downloaded * 100 / total)` when the
/// content length is known, 0 otherwise, never above 100.
pub fn progress_pct(downloaded: u64, total: u64) -> (r: u8)
    ensures
        r as int == pct(downloaded, total),
{
    if total == 0 {
        0
    } else {
        let q: u128 = (downloaded as u128) * 100 / (total as u128);
        if q > 100 {
            100
        } else {
            q as u8
        }
    }
}

} // verus!
