//! The air quality index.
//!
//! The index falls from 100, in clean air, to 0. A PM2.5 density between 0
//! and 60 micrograms per cubic metre and a CO2 concentration between 420 and
//! 2300 parts per million are each laid onto a scale from 0 to 100; values
//! outside those ranges count as the nearer end. The index is 100 less the
//! distance of the two from the origin, no less than 0, as the nearest whole
//! number.
//!
//! It is computed exactly, on whole numbers: the density is taken in tenths
//! of a microgram, which is as fine as the sensor tells it. With `p` the
//! clamped density in tenths and `c` the clamped concentration less 420, the
//! two scaled terms are `p / 6` and `5 * c / 94`, so that 282 times the
//! distance is the square root of `(47 * p)^2 + (15 * c)^2`. Comparing
//! squares then rounds without ever taking a root.

use vstd::prelude::*;

verus! {

/// The PM2.5 density, in tenths of a microgram per cubic metre, at which the
/// scale ends.
pub const PM2_5_MAX_TENTHS: u32 = 600;

/// The CO2 concentrations, in parts per million, at which the scale begins
/// and ends.
pub const CO2_MIN: u32 = 420;

pub const CO2_MAX: u32 = 2300;

/// `value`, or the nearer of the two bounds where it lies outside them.
pub open spec fn clamped(value: int, low: int, high: int) -> int {
    if value < low {
        low
    } else if value > high {
        high
    } else {
        value
    }
}

/// The square of 282 times the distance of a reading from clean air.
pub open spec fn scaled_distance_squared(pm2_5_tenths: int, co2: int) -> int {
    let p = clamped(pm2_5_tenths, 0, PM2_5_MAX_TENTHS as int);
    let c = clamped(co2, CO2_MIN as int, CO2_MAX as int) - CO2_MIN;
    (47 * p) * (47 * p) + (15 * c) * (15 * c)
}

/// Whether `index` is the whole number nearest to 100 less the distance
/// whose 282-fold has the square `squared`, within 0 and 100, a half
/// counting upwards. That is: unless `index` is 100, the distance is more
/// than `100 - index - 1/2`; unless it is 0, the distance is at most
/// `100 - index + 1/2`.
pub open spec fn is_index_of(index: int, squared: int) -> bool {
    let below = 282 * (100 - index) - 141;
    let above = 282 * (100 - index) + 141;
    &&& 0 <= index <= 100
    &&& (index < 100 ==> squared > below * below)
    &&& (index > 0 ==> squared <= above * above)
}

/// The square of 282 times the distance up to which the index is no less
/// than `100 - steps`.
fn threshold(steps: u64) -> (squared: u64)
    requires
        steps <= 100,
    ensures
        squared == (282 * steps + 141) * (282 * steps + 141),
{
    let above: u64 = 282 * steps + 141;
    assert(above * above <= 28341 * 28341) by (nonlinear_arith)
        requires
            above <= 28341,
    ;
    above * above
}

/// The air quality index of a PM2.5 density, in tenths of a microgram per
/// cubic metre, and a CO2 concentration, in parts per million.
pub fn air_quality_index(pm2_5_tenths: u32, co2: u32) -> (index: u8)
    ensures
        index <= 100,
        is_index_of(index as int, scaled_distance_squared(pm2_5_tenths as int, co2 as int)),
{
    let p: u64 = if pm2_5_tenths > PM2_5_MAX_TENTHS {
        PM2_5_MAX_TENTHS as u64
    } else {
        pm2_5_tenths as u64
    };
    let c: u64 = if co2 < CO2_MIN {
        0
    } else if co2 > CO2_MAX {
        (CO2_MAX - CO2_MIN) as u64
    } else {
        (co2 - CO2_MIN) as u64
    };
    let x: u64 = 47 * p;
    let y: u64 = 15 * c;
    assert(x * x <= 28200 * 28200) by (nonlinear_arith)
        requires
            x <= 28200,
    ;
    assert(y * y <= 28200 * 28200) by (nonlinear_arith)
        requires
            y <= 28200,
    ;
    let squared: u64 = x * x + y * y;
    assert(squared == scaled_distance_squared(pm2_5_tenths as int, co2 as int));
    let mut steps: u64 = 0;
    while steps < 100 && squared > threshold(steps)
        invariant
            steps <= 100,
            steps > 0 ==> squared > (282 * (steps - 1) + 141) * (282 * (steps - 1) + 141),
        decreases 100 - steps,
    {
        steps += 1;
    }
    let index: u8 = (100 - steps) as u8;
    assert(282 * (100 - index) - 141 == 282 * (steps - 1) + 141);
    assert(282 * (100 - index) + 141 == 282 * steps + 141);
    index
}

/// No reading has two indices: what `air_quality_index` returns is the one
/// number that `is_index_of` admits.
pub proof fn law_index_is_unique(first: int, second: int, squared: int)
    requires
        is_index_of(first, squared),
        is_index_of(second, squared),
    ensures
        first == second,
{
    if first < second {
        let above = 282 * (100 - second) + 141;
        let below = 282 * (100 - first) - 141;
        assert(0 <= above <= below);
        assert(above * above <= below * below) by (nonlinear_arith)
            requires
                0 <= above <= below,
        ;
    } else if second < first {
        let above = 282 * (100 - first) + 141;
        let below = 282 * (100 - second) - 141;
        assert(0 <= above <= below);
        assert(above * above <= below * below) by (nonlinear_arith)
            requires
                0 <= above <= below,
        ;
    }
}

/// Clean air has the index 100, and air at the end of both scales, or of
/// either, the index 0.
pub proof fn law_index_at_the_ends()
    ensures
        is_index_of(100, scaled_distance_squared(0, CO2_MIN as int)),
        is_index_of(0, scaled_distance_squared(PM2_5_MAX_TENTHS as int, CO2_MAX as int)),
        is_index_of(0, scaled_distance_squared(PM2_5_MAX_TENTHS as int, CO2_MIN as int)),
        is_index_of(0, scaled_distance_squared(0, CO2_MAX as int)),
{
    assert(scaled_distance_squared(0, CO2_MIN as int) == 0);
    assert(141 * 141 == 19881int);
    assert(28200 * 28200 == 795240000int);
    assert(28059 * 28059 == 787307481int);
    assert(scaled_distance_squared(PM2_5_MAX_TENTHS as int, CO2_MAX as int) == 1590480000);
    assert(scaled_distance_squared(PM2_5_MAX_TENTHS as int, CO2_MIN as int) == 795240000);
    assert(scaled_distance_squared(0, CO2_MAX as int) == 795240000);
}

/// Readings beyond the ends of the scales count as the ends.
pub proof fn law_index_clamps(pm2_5_tenths: int, co2: int)
    ensures
        scaled_distance_squared(pm2_5_tenths, co2) == scaled_distance_squared(
            clamped(pm2_5_tenths, 0, PM2_5_MAX_TENTHS as int),
            clamped(co2, CO2_MIN as int, CO2_MAX as int),
        ),
{
}

} // verus!
