use vstd::prelude::*;

verus! {

/// The fixed per-unit-gas tip paid to the block producer, in wei. A
/// conservative minimum chosen once, not discovered per request.
pub const PRIORITY_FEE: u64 = 2_000_000_000;

/// The safety-margined fee ceiling: twice the base fee plus the tip. The
/// doubling guards against base-fee growth across the confirmation window;
/// it is a deliberate static margin, not a fee oracle.
pub open spec fn fee_ceiling(base_fee: u64, priority_fee: u64) -> int {
    2 * base_fee + priority_fee
}

/// Computes the per-unit-gas fee ceiling of a transfer: exactly
/// `base_fee * 2 + priority_fee`, widened into the chain's fee domain so
/// no overflow is possible.
pub fn compute_fee(base_fee: u64, priority_fee: u64) -> (r: u128)
    ensures
        r == fee_ceiling(base_fee, priority_fee),
{
    2 * (base_fee as u128) + (priority_fee as u128)
}

/// The fee ceiling grows strictly with the base fee, and never falls below
/// the tip.
pub proof fn lemma_fee_ceiling_monotonic(b1: u64, b2: u64, p: u64)
    requires
        b1 < b2,
    ensures
        fee_ceiling(b1, p) < fee_ceiling(b2, p),
        fee_ceiling(b1, p) >= p,
{
}

} // verus!
