//! Aggregation: combining several batteries' energy readings into one
//! percentage, and several statuses into one "is any battery charging"
//! signal.

use vstd::prelude::*;

use crate::reader::BatteryStatus;

verus! {

/// One battery's energy readings, in a common arbitrary unit: the rated
/// (last full) capacity and the instantaneous stored energy.
#[derive(Clone, Copy, Debug, PartialEq, Eq, Structural)]
pub struct EnergyReading {
    pub full_capacity: u64,
    pub current_energy: u64,
}

/// Failure of the energy aggregation: the summed full capacity is zero, so
/// no percentage is defined.
#[derive(Clone, Copy, Debug, PartialEq, Eq, Structural)]
pub enum AggregationError {
    ZeroCapacity,
}

/// An upper bound on how many readings one aggregation accepts; it keeps
/// every intermediate sum of the percentage computation within `u128`.
pub const MAX_READINGS: u64 = 0x100_0000_0000_0000;

/// The sum of all rated capacities.
pub open spec fn sum_full(rs: Seq<EnergyReading>) -> int
    decreases rs.len(),
{
    if rs.len() == 0 {
        0
    } else {
        sum_full(rs.drop_last()) + rs.last().full_capacity
    }
}

/// The sum of all stored energies.
pub open spec fn sum_now(rs: Seq<EnergyReading>) -> int
    decreases rs.len(),
{
    if rs.len() == 0 {
        0
    } else {
        sum_now(rs.drop_last()) + rs.last().current_energy
    }
}

/// The combined percentage of `rs`: `100 * Σcurrent_energy /
/// Σfull_capacity`, truncated toward zero. A ratio above `255` (possible
/// only with raw host values whose stored energy far exceeds the rated
/// capacity) is reported as `255`, the largest value the result type
/// carries. Meaningful only when `sum_full(rs) > 0`.
pub open spec fn percent_of(rs: Seq<EnergyReading>) -> int
    recommends
        sum_full(rs) > 0,
{
    let p = 100 * sum_now(rs) / sum_full(rs);
    if p <= 255 {
        p
    } else {
        255
    }
}

/// Law: whenever the summed full capacity is positive and the ratio fits
/// the result type, the combined percentage is exactly
/// `100 * Σcurrent_energy / Σfull_capacity`, truncated toward zero.
pub proof fn lemma_percent_exact(rs: Seq<EnergyReading>)
    requires
        sum_full(rs) > 0,
        100 * sum_now(rs) / sum_full(rs) <= 255,
    ensures
        percent_of(rs) == 100 * sum_now(rs) / sum_full(rs),
{
}

proof fn lemma_sum_bounds(rs: Seq<EnergyReading>)
    ensures
        0 <= sum_full(rs) <= rs.len() * 0xFFFF_FFFF_FFFF_FFFF,
        0 <= sum_now(rs) <= rs.len() * 0xFFFF_FFFF_FFFF_FFFF,
    decreases rs.len(),
{
    if rs.len() == 0 {
    } else {
        lemma_sum_bounds(rs.drop_last());
        assert((rs.len() - 1) * 0xFFFF_FFFF_FFFF_FFFF + 0xFFFF_FFFF_FFFF_FFFF == rs.len()
            * 0xFFFF_FFFF_FFFF_FFFF) by (nonlinear_arith);
    }
}

/// Combines the readings of all monitored batteries into one charge
/// percentage: each sum is taken over all readings before dividing, so
/// that batteries of different capacities are weighted by their capacity.
/// Fails exactly when the summed full capacity is zero.
pub fn combine_energy(readings: &Vec<EnergyReading>) -> (r: Result<u8, AggregationError>)
    requires
        readings@.len() <= MAX_READINGS,
    ensures
        r is Ok <==> sum_full(readings@) > 0,
        r is Ok ==> r->Ok_0 == percent_of(readings@),
        r is Err ==> r->Err_0 == AggregationError::ZeroCapacity,
{
    let n = readings.len();
    let mut full_sum: u128 = 0;
    let mut now_sum: u128 = 0;
    let mut i: usize = 0;
    while i < n
        invariant
            0 <= i <= n,
            n == readings@.len() <= MAX_READINGS,
            full_sum == sum_full(readings@.take(i as int)),
            now_sum == sum_now(readings@.take(i as int)),
        decreases n - i,
    {
        proof {
            lemma_sum_bounds(readings@.take(i as int));
            assert(i * 0xFFFF_FFFF_FFFF_FFFF <= 0x100_0000_0000_0000 * 0xFFFF_FFFF_FFFF_FFFF)
                by (nonlinear_arith)
                requires
                    0 <= i <= 0x100_0000_0000_0000,
            ;
            assert(readings@.take(i + 1).drop_last() =~= readings@.take(i as int));
        }
        full_sum = full_sum + readings[i].full_capacity as u128;
        now_sum = now_sum + readings[i].current_energy as u128;
        i = i + 1;
    }
    proof {
        assert(readings@.take(n as int) =~= readings@);
        lemma_sum_bounds(readings@);
        assert(n * 0xFFFF_FFFF_FFFF_FFFF <= 0x100_0000_0000_0000 * 0xFFFF_FFFF_FFFF_FFFF)
            by (nonlinear_arith)
            requires
                0 <= n <= 0x100_0000_0000_0000,
        ;
    }
    if full_sum == 0 {
        Err(AggregationError::ZeroCapacity)
    } else {
        let scaled = 100 * now_sum;
        let q = scaled / full_sum;
        if q <= 255 {
            Ok(q as u8)
        } else {
            Ok(255)
        }
    }
}

/// Whether any status in `ss` is `Charging`.
pub open spec fn any_charging(ss: Seq<BatteryStatus>) -> bool {
    exists|i: int| 0 <= i < ss.len() && ss[i] == BatteryStatus::Charging
}

/// Whether at least one battery reports `Charging`; `Unknown` counts as
/// not charging, and an empty sequence yields `false`.
pub fn combine_status(statuses: &Vec<BatteryStatus>) -> (r: bool)
    ensures
        r == any_charging(statuses@),
{
    let n = statuses.len();
    let mut i: usize = 0;
    while i < n
        invariant
            0 <= i <= n,
            n == statuses@.len(),
            forall|k: int| 0 <= k < i ==> statuses@[k] != BatteryStatus::Charging,
        decreases n - i,
    {
        if statuses[i] == BatteryStatus::Charging {
            return true;
        }
        i = i + 1;
    }
    false
}

} // verus!
