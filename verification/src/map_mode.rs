//! The display modes, and what each shows of a feature.

use crate::attributes::{FeatureAttributes, IncomeGroup};
use crate::clock::unix_seconds;
use crate::paint::{Hsla, Hue, Paint, Rgba};
use crate::schema::{Fault, Field, SchemaError};
use crate::text::same_text;
use vstd::prelude::*;

verus! {

/// The one display mode that is active at a time.
#[derive(Clone, Copy, Debug, PartialEq, Eq, Structural)]
pub enum MapMode {
    /// The bare terrain, with no feature drawn over it.
    Terrain,
    /// Every feature.
    All,
    /// The high-income members of the OECD.
    Oecd,
    /// Every feature, colored by income group.
    Income,
    /// The one exceptional country, in a color that moves with the clock.
    Exceptional,
}

/// The country that the mode `Exceptional` shows.
pub open spec fn exceptional_admin() -> Seq<char> {
    "United States of America"@
}

/// The fill of an income group: from green for the richest to red for the
/// poorest, all at alpha 100.
pub open spec fn income_fill(group: IncomeGroup) -> Rgba {
    match group {
        IncomeGroup::HighIncomeOecd => Rgba { red: 0, green: 255, blue: 0, alpha: 100 },
        IncomeGroup::HighIncomeNonOecd => Rgba { red: 50, green: 200, blue: 0, alpha: 100 },
        IncomeGroup::UpperMiddleIncome => Rgba { red: 100, green: 150, blue: 0, alpha: 100 },
        IncomeGroup::LowerMiddleIncome => Rgba { red: 150, green: 200, blue: 0, alpha: 100 },
        IncomeGroup::LowIncome => Rgba { red: 255, green: 0, blue: 0, alpha: 100 },
    }
}

/// The fill of a coloring bucket: its hue, fully saturated, at lightness 30,
/// alpha 64.
pub open spec fn bucket_fill(bucket: u8) -> Hsla {
    Hsla { hue: Hue::bucket_hue(bucket), saturation: 100, lightness: 30, alpha: 64 }
}

/// The fill that moves with the clock: the clock's hue, fully saturated, at
/// lightness 50, alpha 100.
pub open spec fn clock_fill(unix_seconds: u64) -> Hsla {
    Hsla { hue: Hue::clock_hue(unix_seconds), saturation: 100, lightness: 50, alpha: 100 }
}

/// The fill of an income group.
pub fn income_color(group: IncomeGroup) -> (fill: Rgba)
    ensures
        fill == income_fill(group),
{
    match group {
        IncomeGroup::HighIncomeOecd => Rgba { red: 0, green: 255, blue: 0, alpha: 100 },
        IncomeGroup::HighIncomeNonOecd => Rgba { red: 50, green: 200, blue: 0, alpha: 100 },
        IncomeGroup::UpperMiddleIncome => Rgba { red: 100, green: 150, blue: 0, alpha: 100 },
        IncomeGroup::LowerMiddleIncome => Rgba { red: 150, green: 200, blue: 0, alpha: 100 },
        IncomeGroup::LowIncome => Rgba { red: 255, green: 0, blue: 0, alpha: 100 },
    }
}

/// The fill of a coloring bucket.
pub fn bucket_color(bucket: u8) -> (fill: Hsla)
    ensures
        fill == bucket_fill(bucket),
{
    Hsla { hue: Hue::of_bucket(bucket), saturation: 100, lightness: 30, alpha: 64 }
}

/// The fill that moves with the clock, `unix_seconds` after the epoch.
pub fn clock_color(unix_seconds: u64) -> (fill: Hsla)
    ensures
        fill == clock_fill(unix_seconds),
{
    Hsla { hue: Hue::of_seconds(unix_seconds), saturation: 100, lightness: 50, alpha: 100 }
}

impl MapMode {
    /// Whether the mode draws the feature at all.
    ///
    /// `Terrain` draws none and `All` and `Income` draw each, whatever the
    /// feature's attributes are. `Oecd` asks for the income group, and draws
    /// no feature of an unknown one. `Exceptional` asks for the administering
    /// country.
    pub open spec fn shows<'a>(self, attrs: FeatureAttributes<'a>) -> Result<
        bool,
        SchemaError<'a>,
    > {
        match self {
            MapMode::Terrain => Ok(false),
            MapMode::All | MapMode::Income => Ok(true),
            MapMode::Oecd => match attrs.income_group {
                Ok(group) => Ok(group == IncomeGroup::HighIncomeOecd),
                Err(Fault::UnknownCategory) => Ok(false),
                Err(fault) => Err(attrs.error(Field::IncomeGroup, fault)),
            },
            MapMode::Exceptional => match attrs.admin_name {
                Ok(admin) => Ok(admin@ == exceptional_admin()),
                Err(fault) => Err(attrs.error(Field::Admin, fault)),
            },
        }
    }

    /// The fill that the mode gives the feature, `unix_seconds` after the
    /// epoch.
    ///
    /// `Terrain`, `All` and `Oecd` ask for the coloring bucket, `Income` for
    /// the income group, which must be a known one, and `Exceptional` for
    /// nothing but the time.
    pub open spec fn paint_at<'a>(self, attrs: FeatureAttributes<'a>, unix_seconds: u64) -> Result<
        Paint,
        SchemaError<'a>,
    > {
        match self {
            MapMode::Terrain | MapMode::All | MapMode::Oecd => match attrs.color_bucket {
                Ok(bucket) => Ok(Paint::Hsla(bucket_fill(bucket))),
                Err(fault) => Err(attrs.error(Field::MapColor, fault)),
            },
            MapMode::Income => match attrs.income_group {
                Ok(group) => Ok(Paint::Rgba(income_fill(group))),
                Err(fault) => Err(attrs.error(Field::IncomeGroup, fault)),
            },
            MapMode::Exceptional => Ok(Paint::Hsla(clock_fill(unix_seconds))),
        }
    }

    /// Whether the mode draws the feature at all, or the attribute that it
    /// asked for in vain.
    pub fn should_show<'a>(&self, attrs: &FeatureAttributes<'a>) -> (shown: Result<
        bool,
        SchemaError<'a>,
    >)
        ensures
            shown == self.shows(*attrs),
    {
        match self {
            MapMode::Terrain => Ok(false),
            MapMode::All | MapMode::Income => Ok(true),
            MapMode::Oecd => match attrs.income_group {
                Ok(IncomeGroup::HighIncomeOecd) => Ok(true),
                Ok(_) => Ok(false),
                Err(Fault::UnknownCategory) => Ok(false),
                Err(fault) => Err(attrs.error(Field::IncomeGroup, fault)),
            },
            MapMode::Exceptional => match attrs.admin_name {
                Ok(admin) => Ok(same_text(admin, "United States of America")),
                Err(fault) => Err(attrs.error(Field::Admin, fault)),
            },
        }
    }

    /// The fill that the mode gives the feature when the clock stands
    /// `unix_seconds` after the epoch, or the attribute that it asked for in
    /// vain. Only `Exceptional` looks at the clock.
    pub fn color_at<'a>(&self, attrs: &FeatureAttributes<'a>, unix_seconds: u64) -> (paint: Result<
        Paint,
        SchemaError<'a>,
    >)
        ensures
            paint == self.paint_at(*attrs, unix_seconds),
    {
        match self {
            MapMode::Terrain | MapMode::All | MapMode::Oecd => match attrs.color_bucket {
                Ok(bucket) => Ok(Paint::Hsla(bucket_color(bucket))),
                Err(fault) => Err(attrs.error(Field::MapColor, fault)),
            },
            MapMode::Income => match attrs.income_group {
                Ok(group) => Ok(Paint::Rgba(income_color(group))),
                Err(fault) => Err(attrs.error(Field::IncomeGroup, fault)),
            },
            MapMode::Exceptional => Ok(Paint::Hsla(clock_color(unix_seconds))),
        }
    }

    /// The fill that the mode gives the feature now, or the attribute that
    /// it asked for in vain. `Exceptional` reads the system clock, and takes
    /// a clock that is set before the epoch to stand at the epoch; the other
    /// modes give what they give at any time.
    pub fn color<'a>(&self, attrs: &FeatureAttributes<'a>) -> (paint: Result<
        Paint,
        SchemaError<'a>,
    >)
        ensures
            exists|unix_seconds: u64| paint == #[trigger] self.paint_at(*attrs, unix_seconds),
            !(self is Exceptional) ==> forall|unix_seconds: u64|
                paint == #[trigger] self.paint_at(*attrs, unix_seconds),
    {
        let unix_seconds: u64 = match self {
            MapMode::Exceptional => match unix_seconds() {
                Some(seconds) => seconds,
                None => 0,
            },
            _ => 0,
        };
        self.color_at(attrs, unix_seconds)
    }
}

/// In the modes `Terrain`, `All` and `Oecd` the fill is that of the coloring
/// bucket, whatever else the feature holds and whatever the time: the
/// bucket's hue at alpha 64.
pub proof fn lemma_bucket_fill_follows_bucket(
    mode: MapMode,
    attrs: FeatureAttributes<'_>,
    unix_seconds: u64,
)
    requires
        mode is Terrain || mode is All || mode is Oecd,
        attrs.color_bucket is Ok,
    ensures
        mode.paint_at(attrs, unix_seconds) matches Ok(paint) && paint == Paint::Hsla(
            bucket_fill(attrs.color_bucket->Ok_0),
        ) && paint.alpha() == 64,
{
}

/// In the mode `Income` the fill is that of the income group, whatever else
/// the feature holds and whatever the time: two features of one group get
/// one fill.
pub proof fn lemma_income_fill_follows_group(
    one: FeatureAttributes<'_>,
    other: FeatureAttributes<'_>,
    one_time: u64,
    other_time: u64,
)
    requires
        one.income_group is Ok,
        one.income_group == other.income_group,
    ensures
        MapMode::Income.paint_at(one, one_time) == MapMode::Income.paint_at(other, other_time),
        MapMode::Income.paint_at(one, one_time) == Ok::<Paint, SchemaError<'_>>(
            Paint::Rgba(income_fill(one.income_group->Ok_0)),
        ),
{
}

/// The mode `Exceptional` shows the features of the one country and no
/// other.
pub proof fn lemma_exceptional_shows_one_country(attrs: FeatureAttributes<'_>)
    ensures
        MapMode::Exceptional.shows(attrs) == Ok::<bool, SchemaError<'_>>(true) <==> (
        attrs.admin_name matches Ok(admin) && admin@ == exceptional_admin()),
        attrs.admin_name matches Ok(admin) && admin@ != exceptional_admin()
            ==> MapMode::Exceptional.shows(attrs) == Ok::<bool, SchemaError<'_>>(false),
{
}

/// The mode `Terrain` shows no feature, whatever its attributes are.
pub proof fn lemma_terrain_shows_nothing(attrs: FeatureAttributes<'_>)
    ensures
        MapMode::Terrain.shows(attrs) == Ok::<bool, SchemaError<'_>>(false),
{
}

} // verus!
