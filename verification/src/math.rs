//! Arithmetic facts about basis-point calculations.
//!
//! All monetary figures in this crate are integer token units, and rates are
//! basis points (1 bps = 0.01%). A charge of `bps` basis points on `amount`
//! is `amount * bps / 10000`; these lemmas bound such charges.

use vstd::prelude::*;

verus! {

/// A charge of at most 10000 bps (100%) never exceeds the amount charged.
pub proof fn lemma_bps_le_amount(amount: int, bps: int)
    requires
        0 <= amount,
        0 <= bps <= 10000,
    ensures
        0 <= amount * bps / 10000 <= amount,
{
    assert(0 <= amount * bps / 10000 <= amount) by (nonlinear_arith)
        requires
            0 <= amount,
            0 <= bps <= 10000,
    ;
}

} // verus!
