//! Labels: which features get one at an altitude, and how it looks.

use crate::ieee::{
    lemma_binary32_sizes_compare_as_bits,
    lemma_less_than_is_the_order_of_sizes,
    Binary32,
    Binary64,
};
use crate::paint::Rgba;
use vstd::arithmetic::power2::{
    lemma2_to64,
    lemma2_to64_rest,
    lemma_pow2_adds,
    lemma_pow2_pos,
    lemma_pow2_strictly_increases,
    lemma_pow2_unfold,
    pow2,
};
use vstd::prelude::*;

verus! {

/// How a label is drawn.
#[derive(Clone, Copy, Debug, PartialEq, Eq)]
pub struct LabelStyle<'a> {
    /// The text of the label.
    pub text: &'a str,
    /// The size of the font.
    pub scale: u32,
    /// The color of the letters.
    pub text_color: Rgba,
    /// The color of the line around the letters.
    pub border_color: Rgba,
    /// The width of that line.
    pub border_width: u32,
}

/// A color that lets nothing show through.
pub open spec fn solid(red: u8, green: u8, blue: u8) -> Rgba {
    Rgba { red, green, blue, alpha: 255 }
}

/// The style of a label: its text in yellow at size 30 for a capital, and in
/// white at size 20 for any other feature, with a black line of width 1
/// around the letters.
pub open spec fn style_of<'a>(text: &'a str, is_capital: bool) -> LabelStyle<'a> {
    LabelStyle {
        text,
        scale: if is_capital {
            30
        } else {
            20
        },
        text_color: if is_capital {
            solid(255, 255, 0)
        } else {
            solid(255, 255, 255)
        },
        border_color: solid(0, 0, 0),
        border_width: 1,
    }
}

/// Whether the camera is too high for a label: whether its height times the
/// label's least zoom is more than one and a half.
///
/// The product is taken as it is, not rounded to a format. Its unit is
/// 2^-1223, the product of the two formats' units, so that one and a half is
/// 3 * 2^1222 units. An infinity times a zero is no number, and no number
/// is more than anything; an infinity times anything else is an infinity.
pub open spec fn out_of_zoom(height: Binary32, min_zoom: Binary64) -> bool {
    &&& !height.is_nan()
    &&& !min_zoom.is_nan()
    &&& if height.is_infinite() || min_zoom.is_infinite() {
        &&& !height.is_zero()
        &&& !min_zoom.is_zero()
        &&& height.is_negative() == min_zoom.is_negative()
    } else {
        height.scaled() * min_zoom.scaled() > 3 * pow2(1222)
    }
}

/// As the camera rises, labels only drop out: a label of a least zoom that
/// is not below zero, out of zoom at one height, is out of zoom at every
/// greater one.
pub proof fn lemma_out_of_zoom_grows_with_height(low: Binary32, high: Binary32, min_zoom: Binary64)
    requires
        !low.is_nan(),
        !high.is_nan(),
        !high.is_less_than(low),
        !min_zoom.is_negative(),
        out_of_zoom(low, min_zoom),
    ensures
        out_of_zoom(high, min_zoom),
{
    lemma_less_than_is_the_order_of_sizes(high, low);
    lemma_binary32_sizes_compare_as_bits(low, high);
    lemma_binary32_sizes_compare_as_bits(high, low);
    lemma_pow2_pos(1222);
    let size = min_zoom.scaled();
    if !low.is_infinite() && !min_zoom.is_infinite() {
        assert(low.scaled() > 0 && size > 0) by (nonlinear_arith)
            requires
                low.scaled() * size > 0,
                size >= 0,
        ;
        assert(low.scaled() * size <= high.scaled() * size) by (nonlinear_arith)
            requires
                low.scaled() <= high.scaled(),
                size >= 0,
        ;
    }
}

/// Two to the power of `exponent`.
fn power_of_two(exponent: u32) -> (power: u128)
    requires
        exponent <= 76,
    ensures
        power == pow2(exponent as nat),
        power <= 0x1000_0000_0000_0000_0000,
{
    let mut power: u128 = 1;
    let mut done: u32 = 0;
    proof {
        lemma2_to64();
        lemma2_to64_rest();
        lemma_pow2_adds(64, 12);
    }
    while done < exponent
        invariant
            done <= exponent <= 76,
            power == pow2(done as nat),
            pow2(76) == 0x1000_0000_0000_0000_0000,
        decreases exponent - done,
    {
        proof {
            lemma_pow2_unfold((done + 1) as nat);
            if done + 1 < 76 {
                lemma_pow2_strictly_increases((done + 1) as nat, 76);
            }
        }
        power = power * 2;
        done = done + 1;
    }
    proof {
        if exponent < 76 {
            lemma_pow2_strictly_increases(exponent as nat, 76);
        }
    }
    power
}

/// Whether the camera, at `height`, is too high for a label of least zoom
/// `min_zoom`.
pub fn is_out_of_zoom(height: Binary32, min_zoom: Binary64) -> (out: bool)
    ensures
        out == out_of_zoom(height, min_zoom),
{
    if height.is_nan() || min_zoom.is_nan() {
        return false;
    }
    let same_sign = height.is_negative() == min_zoom.is_negative();
    if height.is_infinite() || min_zoom.is_infinite() {
        return !height.is_zero() && !min_zoom.is_zero() && same_sign;
    }
    let (high, high_doublings) = height.parts();
    let (zoom, zoom_doublings) = min_zoom.parts();
    let doublings: u32 = high_doublings + zoom_doublings;
    proof {
        lemma2_to64();
        lemma2_to64_rest();
    }
    assert(high * zoom < 0x100_0000 * 0x20_0000_0000_0000) by (nonlinear_arith)
        requires
            high < 0x100_0000,
            zoom < 0x20_0000_0000_0000,
    ;
    let significand: u128 = (high as u128) * (zoom as u128);
    proof {
        // The sizes multiply to the significand, doubled `doublings` times.
        lemma_pow2_unfold(1223);
        let a = pow2(high_doublings as nat);
        let b = pow2(zoom_doublings as nat);
        lemma_pow2_adds(high_doublings as nat, zoom_doublings as nat);
        lemma_pow2_pos(doublings as nat);
        lemma_pow2_pos(1223);
        assert((high * a) * (zoom * b) == (high * zoom) * (a * b)) by (nonlinear_arith);
        assert(height.magnitude() * min_zoom.magnitude() == significand * pow2(doublings as nat));
        let sizes = height.magnitude() * min_zoom.magnitude();
        if same_sign {
            assert(height.scaled() * min_zoom.scaled() == sizes) by (nonlinear_arith)
                requires
                    (height.scaled() == height.magnitude() && min_zoom.scaled()
                        == min_zoom.magnitude()) || (height.scaled() == -height.magnitude()
                        && min_zoom.scaled() == -min_zoom.magnitude()),
                    sizes == height.magnitude() * min_zoom.magnitude(),
            ;
        } else {
            assert(height.scaled() * min_zoom.scaled() == -sizes) by (nonlinear_arith)
                requires
                    (height.scaled() == height.magnitude() && min_zoom.scaled()
                        == -min_zoom.magnitude()) || (height.scaled() == -height.magnitude()
                        && min_zoom.scaled() == min_zoom.magnitude()),
                    sizes == height.magnitude() * min_zoom.magnitude(),
            ;
        }
    }
    if !same_sign || significand == 0 {
        assert(significand == 0 ==> significand * pow2(doublings as nat) == 0) by (nonlinear_arith);
        return false;
    }
    if doublings >= 1224 {
        proof {
            let step = pow2(doublings as nat);
            lemma_pow2_unfold(1224);
            if doublings > 1224 {
                lemma_pow2_strictly_increases(1224, doublings as nat);
            }
            assert(2 * (significand * step) > 3 * pow2(1223)) by (nonlinear_arith)
                requires
                    significand >= 1,
                    step >= 2 * pow2(1223),
                    pow2(1223) > 0,
            ;
        }
        return true;
    }
    let gap: u32 = 1223 - doublings;
    proof {
        lemma_pow2_adds(doublings as nat, gap as nat);
    }
    if gap > 76 {
        proof {
            let step = pow2(doublings as nat);
            let rest = pow2(gap as nat);
            lemma_pow2_adds(64, 13);
            if gap > 77 {
                lemma_pow2_strictly_increases(77, gap as nat);
            }
            assert(2 * (significand * step) <= 3 * (step * rest)) by (nonlinear_arith)
                requires
                    significand < rest,
                    step > 0,
            ;
        }
        return false;
    }
    let rest = power_of_two(gap);
    proof {
        let step = pow2(doublings as nat);
        assert((2 * (significand * step) > 3 * (step * rest)) == (2 * significand > 3 * rest))
            by (nonlinear_arith)
            requires
                step > 0,
        ;
    }
    2 * significand > 3 * rest
}

/// The style of a label.
pub fn label_style<'a>(text: &'a str, is_capital: bool) -> (style: LabelStyle<'a>)
    ensures
        style == style_of(text, is_capital),
{
    let (scale, text_color) = if is_capital {
        (30u32, Rgba { red: 255, green: 255, blue: 0, alpha: 255 })
    } else {
        (20u32, Rgba { red: 255, green: 255, blue: 255, alpha: 255 })
    };
    LabelStyle {
        text,
        scale,
        text_color,
        border_color: Rgba { red: 0, green: 0, blue: 0, alpha: 255 },
        border_width: 1,
    }
}

} // verus!
