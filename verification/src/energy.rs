//! Aggregate energy estimation from the current temperature readings.
//!
//! The estimate is the exact integer rendering of
//! `volume_l * max(0, average(readings) - reference_temp) * coefficient / 1000`:
//! the average is folded into one final division, so no precision is lost.
//! Readings and the reference temperature are millidegrees Celsius, the
//! coefficient is milliwatt-hours per liter per Kelvin, and the result is
//! microkilowatt-hours.

use vstd::prelude::*;
use crate::config::BoilerConfig;

verus! {

/// Largest magnitude, in millidegrees Celsius, that a reading or the
/// reference temperature may have (one thousand degrees).
pub const MAX_ABS_TEMP_MILLI: i64 = 1_000_000;

/// Largest boiler volume, in liters, that the estimator accepts.
pub const MAX_VOLUME_L: u64 = 1_000_000;

/// Largest energy coefficient, in milliwatt-hours per liter per Kelvin,
/// that the estimator accepts.
pub const MAX_COEFFICIENT_MILLI: u64 = 1_000_000;

/// Largest number of readings that the estimator accepts.
pub const MAX_READINGS: usize = 10_000;

/// Sum of a sequence of millidegree readings.
pub open spec fn sum_milli(s: Seq<i64>) -> int
    decreases s.len(),
{
    if s.len() == 0 {
        0
    } else {
        sum_milli(s.drop_last()) + s.last()
    }
}

/// A reading the estimator accepts: at most a thousand degrees in magnitude.
pub open spec fn reading_in_range(v: i64) -> bool {
    -MAX_ABS_TEMP_MILLI <= v <= MAX_ABS_TEMP_MILLI
}

/// Boiler parameters the estimator accepts.
pub open spec fn params_in_range(b: BoilerConfig) -> bool {
    b.volume_l <= MAX_VOLUME_L
        && -MAX_ABS_TEMP_MILLI <= b.reference_temp_milli_c <= MAX_ABS_TEMP_MILLI
        && b.energy_coefficient_milli <= MAX_COEFFICIENT_MILLI
}

/// Energy in microkilowatt-hours held by `rs` relative to the reference
/// temperature. With no readings the average temperature is defined as zero
/// degrees and the energy is zero; a negative temperature excess clamps to
/// zero (no negative energy). `sum - ref * len` is `len` times the excess of
/// the average over the reference, so dividing by `len * 1000` at the end
/// yields `volume * max(0, avg - ref) * coefficient / 1000` exactly.
pub open spec fn estimate_spec(rs: Seq<i64>, b: BoilerConfig) -> int {
    if rs.len() == 0 {
        0
    } else {
        let excess = sum_milli(rs) - (b.reference_temp_milli_c as int) * (rs.len() as int);
        if excess <= 0 {
            0
        } else {
            ((b.volume_l as int) * excess * (b.energy_coefficient_milli as int))
                / ((rs.len() as int) * 1000)
        }
    }
}

/// Computes the aggregate energy estimate for the current readings.
pub fn estimate(readings: &Vec<i64>, params: &BoilerConfig) -> (energy: u128)
    requires
        params_in_range(*params),
        readings@.len() <= MAX_READINGS,
        forall|i: int| 0 <= i < readings@.len() ==> reading_in_range(#[trigger] readings@[i]),
    ensures
        energy == estimate_spec(readings@, *params),
        readings@.len() == 0 ==> energy == 0,
        sum_milli(readings@)
            <= (params.reference_temp_milli_c as int) * (readings@.len() as int)
            ==> energy == 0,
{
    let n: usize = readings.len();
    if n == 0 {
        return 0;
    }
    let mut sum: i128 = 0;
    let mut i: usize = 0;
    while i < n
        invariant
            0 <= i <= n,
            n == readings@.len() <= MAX_READINGS,
            forall|j: int| 0 <= j < n ==> reading_in_range(#[trigger] readings@[j]),
            sum == sum_milli(readings@.subrange(0, i as int)),
            -(i as int) * (MAX_ABS_TEMP_MILLI as int) <= sum
                <= (i as int) * (MAX_ABS_TEMP_MILLI as int),
        decreases n - i,
    {
        proof {
            assert(readings@.subrange(0, i + 1).drop_last() =~= readings@.subrange(0, i as int));
            assert(readings@.subrange(0, i + 1).last() == readings@[i as int]);
            assert((i as int) * (MAX_ABS_TEMP_MILLI as int) + MAX_ABS_TEMP_MILLI
                == (i + 1) * (MAX_ABS_TEMP_MILLI as int)) by (nonlinear_arith);
        }
        sum = sum + readings[i] as i128;
        i = i + 1;
    }
    proof {
        assert(readings@.subrange(0, n as int) =~= readings@);
        assert((n as int) * (MAX_ABS_TEMP_MILLI as int) <= 10_000_000_000int) by (nonlinear_arith)
            requires n <= 10_000;
    }
    proof {
        assert(-10_000_000_000int <= (params.reference_temp_milli_c as int) * (n as int)
            <= 10_000_000_000int) by (nonlinear_arith)
            requires
                -1_000_000 <= params.reference_temp_milli_c as int <= 1_000_000,
                0 <= n as int <= 10_000;
    }
    let reference_total: i128 = (params.reference_temp_milli_c as i128) * (n as i128);
    if sum <= reference_total {
        return 0;
    }
    let excess: u128 = (sum - reference_total) as u128;
    let volume: u128 = params.volume_l as u128;
    let coefficient: u128 = params.energy_coefficient_milli as u128;
    proof {
        assert((volume as int) * (excess as int) <= 20_000_000_000_000_000int)
            by (nonlinear_arith)
            requires
                0 <= volume as int <= 1_000_000,
                0 <= excess as int <= 20_000_000_000,
        ;
        assert((volume as int) * (excess as int) * (coefficient as int)
            <= 20_000_000_000_000_000_000_000int) by (nonlinear_arith)
            requires
                0 <= (volume as int) * (excess as int) <= 20_000_000_000_000_000,
                0 <= coefficient as int <= 1_000_000,
        ;
        assert((volume as int) * (excess as int) >= 0) by (nonlinear_arith)
            requires volume as int >= 0, excess as int >= 0;
        assert((volume as int) * (excess as int) * (coefficient as int) >= 0)
            by (nonlinear_arith)
            requires (volume as int) * (excess as int) >= 0, coefficient as int >= 0;
    }
    let numerator: u128 = volume * excess * coefficient;
    let denominator: u128 = (n as u128) * 1000;
    numerator / denominator
}

} // verus!
