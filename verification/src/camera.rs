//! The camera's height above the surface.

use crate::ieee::{
    lemma_binary32_sizes_compare_as_bits,
    lemma_less_than_is_the_order_of_sizes,
    lemma_nearest_of_neighbours,
    Binary32,
};
use vstd::arithmetic::power2::{
    lemma2_to64,
    lemma2_to64_rest,
    lemma_pow2_adds,
    lemma_pow2_pos,
    pow2,
};
use vstd::prelude::*;

verus! {

/// The bits of the least height that the camera is let down to: the binary32
/// number nearest to one thousandth, 0.001, where the near plane of the
/// projection lies.
pub const LEAST_HEIGHT: u32 = 0x3a83_126f;

/// The least height that the camera is let down to.
pub open spec fn least_height() -> Binary32 {
    Binary32 { bits: LEAST_HEIGHT }
}

/// A height as the camera holds it: the least height in place of a lesser
/// one and of what is no number, and any other height as it is.
pub open spec fn held_height(height: Binary32) -> Binary32 {
    if height.is_nan() || height.is_less_than(least_height()) {
        least_height()
    } else {
        height
    }
}

/// Holds a height up to the least height, so that the camera's height is
/// always a number and always above zero.
pub fn hold_height(height: Binary32) -> (held: Binary32)
    ensures
        held == held_height(height),
        !held.is_nan(),
        0 < least_height().scaled() <= held.scaled(),
{
    let least = Binary32 { bits: LEAST_HEIGHT };
    proof {
        lemma_binary32_sizes_compare_as_bits(Binary32 { bits: 0 }, least);
        lemma_less_than_is_the_order_of_sizes(height, least);
    }
    if height.is_nan() || height.is_less_than(least) {
        least
    } else {
        height
    }
}

/// A height that is held stays as it is when it is held again.
pub proof fn lemma_held_height_stays(height: Binary32)
    ensures
        held_height(held_height(height)) == held_height(height),
{
}

/// The least height is the binary32 number to which one thousandth rounds.
pub proof fn lemma_least_height_is_the_rounded_thousandth()
    ensures
        least_height().is_nearest_to(1, 1000),
{
    let step = pow2(116);
    lemma2_to64();
    lemma2_to64_rest();
    lemma_pow2_pos(116);
    lemma_pow2_adds(33, 116);
    assert(pow2(149) == 0x2_0000_0000 * step);
    assert((Binary32 { bits: 0x3a83_126e }).scaled() == 8589934 * step);
    assert(least_height().scaled() == 8589935 * step);
    assert((Binary32 { bits: 0x3a83_1270 }).scaled() == 8589936 * step);
    lemma_nearest_of_neighbours(least_height(), 1, 1000, step, -592, 408, 1408);
}

} // verus!
