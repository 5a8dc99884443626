//! Fixed-point constants and the one division primitive the library needs.

use vstd::prelude::*;

use vstd::arithmetic::div_mod::lemma_div_is_ordered;
use vstd::arithmetic::div_mod::lemma_div_pos_is_pos;
use vstd::arithmetic::div_mod::lemma_fundamental_div_mod;
use vstd::arithmetic::div_mod::lemma_fundamental_div_mod_converse;
use vstd::arithmetic::div_mod::lemma_mod_bound;

verus! {

/// Number of fixed-point units that make up one whole unit of progress.
/// A progress value of `SCALE` marks the far end of the segment, just as a
/// progress value of `0` marks the near end.
pub const SCALE: i64 = 1_000_000;

/// Largest coordinate magnitude a point may carry.  Keeping coordinates in
/// this range guarantees that every product and sum the interpolation forms
/// stays inside `i64`.
pub const COORD_LIMIT: i64 = 1_000_000_000_000;

/// Largest dividend magnitude `div_by_scale` accepts: the largest product of
/// a progress value (at most `2 * SCALE` in magnitude) and a coordinate
/// difference (at most `2 * COORD_LIMIT` in magnitude).
pub const PROD_LIMIT: i64 = 4_000_000_000_000_000_000;

/// Floor division of `n` by `SCALE`: the unique `q` with
/// `q * SCALE <= n < (q + 1) * SCALE`.  This matches the mathematical
/// (Euclidean) quotient `n / SCALE`, which rounds toward negative infinity,
/// not toward zero.
pub fn div_by_scale(n: i64) -> (q: i64)
    requires
        -PROD_LIMIT <= n <= PROD_LIMIT,
    ensures
        q == n as int / SCALE as int,
        -4_000_000_000_000 <= q <= 4_000_000_000_000,
{
    if n >= 0 {
        let q0: u64 = (n as u64) / (SCALE as u64);
        proof {
            lemma_div_pos_is_pos(n as int, SCALE as int);
            lemma_div_is_ordered(n as int, PROD_LIMIT as int, SCALE as int);
        }
        q0 as i64
    } else {
        let m: u64 = (-n) as u64;
        let x: u64 = m + (SCALE as u64) - 1;
        let q1: u64 = x / (SCALE as u64);
        proof {
            lemma_div_pos_is_pos(x as int, SCALE as int);
            lemma_div_is_ordered(x as int, PROD_LIMIT as int + SCALE as int - 1, SCALE as int);
            lemma_fundamental_div_mod(x as int, SCALE as int);
            lemma_mod_bound(x as int, SCALE as int);
            let r: int = SCALE as int - 1 - (x as int % SCALE as int);
            lemma_fundamental_div_mod_converse(n as int, SCALE as int, -(q1 as int), r);
        }
        -(q1 as i64)
    }
}

} // verus!
