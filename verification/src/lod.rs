//! The level of detail that an altitude calls for.

use crate::ieee::{
    lemma_binary32_sizes_compare_as_bits,
    lemma_less_than_is_the_order_of_sizes,
    lemma_nearest_of_neighbours,
    Binary32,
};
use vstd::arithmetic::power2::{
    lemma2_to64,
    lemma_pow2_adds,
    lemma_pow2_pos,
    lemma_pow2_unfold,
    pow2,
};
use vstd::prelude::*;

verus! {

/// The bits of the binary32 number nearest to one tenth, 0.1.
pub const ONE_TENTH: u32 = 0x3dcc_cccd;

/// The bits of the binary32 number nearest to one fifth, 0.2.
pub const ONE_FIFTH: u32 = 0x3e4c_cccd;

/// The bits of the binary32 number one half, 0.5.
pub const ONE_HALF: u32 = 0x3f00_0000;

/// The bits of the binary32 number nearest to seven tenths, 0.7.
pub const SEVEN_TENTHS: u32 = 0x3f33_3333;

/// The bound below which the level is 5.
pub open spec fn one_tenth() -> Binary32 {
    Binary32 { bits: ONE_TENTH }
}

/// The bound below which the level is 4 or more.
pub open spec fn one_fifth() -> Binary32 {
    Binary32 { bits: ONE_FIFTH }
}

/// The bound below which the level is 3 or more.
pub open spec fn one_half() -> Binary32 {
    Binary32 { bits: ONE_HALF }
}

/// The bound below which the level is 2 or more.
pub open spec fn seven_tenths() -> Binary32 {
    Binary32 { bits: SEVEN_TENTHS }
}

/// The level of detail at an altitude: 5, the finest, below a tenth; 4 from
/// there to below a fifth; 3 to below a half; 2 to below seven tenths; and 1
/// from there on, as for an altitude that is no number.
pub open spec fn lod_level(altitude: Binary32) -> u8 {
    if altitude.is_less_than(one_tenth()) {
        5
    } else if altitude.is_less_than(one_fifth()) {
        4
    } else if altitude.is_less_than(one_half()) {
        3
    } else if altitude.is_less_than(seven_tenths()) {
        2
    } else {
        1
    }
}

/// The level of detail at an altitude.
pub fn level_at(altitude: Binary32) -> (level: u8)
    ensures
        level == lod_level(altitude),
        1 <= level <= 5,
{
    if altitude.is_less_than(Binary32 { bits: ONE_TENTH }) {
        5
    } else if altitude.is_less_than(Binary32 { bits: ONE_FIFTH }) {
        4
    } else if altitude.is_less_than(Binary32 { bits: ONE_HALF }) {
        3
    } else if altitude.is_less_than(Binary32 { bits: SEVEN_TENTHS }) {
        2
    } else {
        1
    }
}

/// The higher of two altitudes never calls for the finer level.
pub proof fn lemma_lod_level_falls_with_altitude(low: Binary32, high: Binary32)
    requires
        !low.is_nan(),
        !high.is_nan(),
        !high.is_less_than(low),
    ensures
        lod_level(low) >= lod_level(high),
{
    lemma_less_than_is_the_order_of_sizes(high, low);
    lemma_orders_against_the_bounds(low);
    lemma_orders_against_the_bounds(high);
}

/// An altitude stands to each of the four bounds as its size does.
proof fn lemma_orders_against_the_bounds(altitude: Binary32)
    ensures
        altitude.is_less_than(one_tenth()) <==> !altitude.is_nan() && altitude.scaled()
            < one_tenth().scaled(),
        altitude.is_less_than(one_fifth()) <==> !altitude.is_nan() && altitude.scaled()
            < one_fifth().scaled(),
        altitude.is_less_than(one_half()) <==> !altitude.is_nan() && altitude.scaled()
            < one_half().scaled(),
        altitude.is_less_than(seven_tenths()) <==> !altitude.is_nan() && altitude.scaled()
            < seven_tenths().scaled(),
{
    lemma_less_than_is_the_order_of_sizes(altitude, one_tenth());
    lemma_less_than_is_the_order_of_sizes(altitude, one_fifth());
    lemma_less_than_is_the_order_of_sizes(altitude, one_half());
    lemma_less_than_is_the_order_of_sizes(altitude, seven_tenths());
}

/// The four bounds stand in rising order above zero, and each level is the
/// band of altitudes from one bound, which belongs to it, to the next, which
/// does not.
pub proof fn lemma_lod_level_bands(altitude: Binary32)
    requires
        !altitude.is_nan(),
    ensures
        0 < one_tenth().scaled() < one_fifth().scaled() < one_half().scaled()
            < seven_tenths().scaled(),
        lod_level(altitude) == 5 <==> altitude.scaled() < one_tenth().scaled(),
        lod_level(altitude) == 4 <==> one_tenth().scaled() <= altitude.scaled()
            < one_fifth().scaled(),
        lod_level(altitude) == 3 <==> one_fifth().scaled() <= altitude.scaled()
            < one_half().scaled(),
        lod_level(altitude) == 2 <==> one_half().scaled() <= altitude.scaled()
            < seven_tenths().scaled(),
        lod_level(altitude) == 1 <==> seven_tenths().scaled() <= altitude.scaled(),
{
    lemma_orders_against_the_bounds(altitude);
    lemma_binary32_sizes_compare_as_bits(Binary32 { bits: 0 }, one_tenth());
    lemma_binary32_sizes_compare_as_bits(one_tenth(), one_fifth());
    lemma_binary32_sizes_compare_as_bits(one_fifth(), one_half());
    lemma_binary32_sizes_compare_as_bits(one_half(), seven_tenths());
}

/// The four bounds are the binary32 numbers to which one tenth, one fifth,
/// one half and seven tenths round.
pub proof fn lemma_bounds_are_the_rounded_fractions()
    ensures
        one_tenth().is_nearest_to(1, 10),
        one_fifth().is_nearest_to(1, 5),
        one_half().is_nearest_to(1, 2),
        seven_tenths().is_nearest_to(7, 10),
{
    lemma2_to64();
    assert(one_tenth().is_nearest_to(1, 10)) by {
        let step = pow2(122);
        lemma_pow2_pos(122);
        lemma_pow2_adds(27, 122);
        assert(pow2(149) == 0x800_0000 * step);
        assert((Binary32 { bits: 0x3dcc_cccc }).scaled() == 13421772 * step);
        assert(one_tenth().scaled() == 13421773 * step);
        assert((Binary32 { bits: 0x3dcc_ccce }).scaled() == 13421774 * step);
        lemma_nearest_of_neighbours(one_tenth(), 1, 10, step, -8, 2, 12);
    }
    assert(one_fifth().is_nearest_to(1, 5)) by {
        let step = pow2(123);
        lemma_pow2_pos(123);
        lemma_pow2_adds(26, 123);
        assert(pow2(149) == 0x400_0000 * step);
        assert((Binary32 { bits: 0x3e4c_cccc }).scaled() == 13421772 * step);
        assert(one_fifth().scaled() == 13421773 * step);
        assert((Binary32 { bits: 0x3e4c_ccce }).scaled() == 13421774 * step);
        lemma_nearest_of_neighbours(one_fifth(), 1, 5, step, -4, 1, 6);
    }
    assert(one_half().is_nearest_to(1, 2)) by {
        let step = pow2(124);
        lemma_pow2_pos(124);
        lemma_pow2_unfold(125);
        lemma_pow2_adds(25, 124);
        assert(pow2(149) == 0x200_0000 * step);
        assert((Binary32 { bits: 0x3eff_ffff }).scaled() == 16777215 * step);
        assert(one_half().scaled() == 8388608 * pow2(125));
        assert((Binary32 { bits: 0x3f00_0001 }).scaled() == 8388609 * pow2(125));
        lemma_nearest_of_neighbours(one_half(), 1, 2, step, -2, 0, 4);
    }
    assert(seven_tenths().is_nearest_to(7, 10)) by {
        let step = pow2(125);
        lemma_pow2_pos(125);
        lemma_pow2_adds(24, 125);
        assert(pow2(149) == 0x100_0000 * step);
        assert((Binary32 { bits: 0x3f33_3332 }).scaled() == 11744050 * step);
        assert(seven_tenths().scaled() == 11744051 * step);
        assert((Binary32 { bits: 0x3f33_3334 }).scaled() == 11744052 * step);
        lemma_nearest_of_neighbours(seven_tenths(), 7, 10, step, -12, -2, 8);
    }
}

} // verus!
