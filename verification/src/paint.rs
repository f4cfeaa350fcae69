//! Colors, as channel values or as a place on the color wheel.

use vstd::prelude::*;

verus! {

/// A color of four channels, each from 0 (none) to 255 (full).
#[derive(Clone, Copy, Debug, PartialEq, Eq, Structural)]
pub struct Rgba {
    pub red: u8,
    pub green: u8,
    pub blue: u8,
    pub alpha: u8,
}

/// How many coloring buckets share the color wheel.
pub const BUCKETS: u8 = 13;

/// An angle on the color wheel, less than a full turn.
#[derive(Clone, Copy, Debug, PartialEq, Eq, Structural)]
pub enum Hue {
    /// That many thirteenths of a full turn.
    Thirteenths(u8),
    /// That many whole degrees.
    Degrees(u16),
}

impl Hue {
    /// Whether the angle is less than a full turn.
    pub open spec fn wf(self) -> bool {
        match self {
            Hue::Thirteenths(n) => n < BUCKETS,
            Hue::Degrees(d) => d < 360,
        }
    }

    /// The angle, counted in thirteenths of a degree; a full turn is 4680.
    pub open spec fn angle(self) -> int {
        match self {
            Hue::Thirteenths(n) => 360 * n,
            Hue::Degrees(d) => 13 * d,
        }
    }

    /// The hue of a coloring bucket.
    pub open spec fn bucket_hue(bucket: u8) -> Hue {
        Hue::Thirteenths(bucket % BUCKETS)
    }

    /// The hue shown `unix_seconds` after the epoch.
    pub open spec fn clock_hue(unix_seconds: u64) -> Hue {
        Hue::Degrees(((unix_seconds * 100) % 360) as u16)
    }

    /// The buckets divide the wheel evenly: bucket 0 sits at no turn at all,
    /// each next bucket a thirteenth of a turn further, and the fourteenth
    /// bucket is back where the first one is.
    pub fn of_bucket(bucket: u8) -> (hue: Hue)
        ensures
            hue == Self::bucket_hue(bucket),
            hue.wf(),
            13 * hue.angle() == 4680 * (bucket % BUCKETS),
    {
        Hue::Thirteenths(bucket % BUCKETS)
    }

    /// The hue moves by a hundred degrees each second and wraps at the full
    /// turn.
    pub fn of_seconds(unix_seconds: u64) -> (hue: Hue)
        ensures
            hue == Self::clock_hue(unix_seconds),
            hue.wf(),
            hue.angle() == 13 * ((unix_seconds * 100) % 360),
    {
        let degrees: u64 = ((unix_seconds % 18) * 100) % 360;
        assert(degrees == (unix_seconds * 100) % 360);
        Hue::Degrees(degrees as u16)
    }
}

/// A hue at a saturation and a lightness, both in percent, with an alpha
/// channel from 0 to 255.
#[derive(Clone, Copy, Debug, PartialEq, Eq, Structural)]
pub struct Hsla {
    pub hue: Hue,
    pub saturation: u8,
    pub lightness: u8,
    pub alpha: u8,
}

/// What a polygon is filled with.
#[derive(Clone, Copy, Debug, PartialEq, Eq, Structural)]
pub enum Paint {
    /// Channel values, to be used as they are.
    Rgba(Rgba),
    /// A place on the color wheel.
    Hsla(Hsla),
}

impl Paint {
    /// The alpha channel, from 0 to 255.
    pub open spec fn alpha(self) -> u8 {
        match self {
            Paint::Rgba(c) => c.alpha,
            Paint::Hsla(c) => c.alpha,
        }
    }
}

/// A bucket and the one thirteen places after it have the same hue.
pub proof fn lemma_bucket_hue_wraps(bucket: u8)
    requires
        bucket + 13 <= u8::MAX,
    ensures
        Hue::bucket_hue((bucket + 13) as u8) == Hue::bucket_hue(bucket),
        Hue::bucket_hue(13) == Hue::bucket_hue(0),
        Hue::bucket_hue(0).angle() == 0,
{
}

/// From bucket 0 to bucket 12 the hue grows with the bucket, and stays short
/// of a full turn.
pub proof fn lemma_bucket_hue_increases(low: u8, high: u8)
    requires
        low < high <= 12,
    ensures
        Hue::bucket_hue(low).angle() < Hue::bucket_hue(high).angle() < 4680,
{
}

} // verus!
