//! The attributes that the viewer asks of a feature, and what can be wrong
//! with one.

use vstd::prelude::*;

verus! {

/// An attribute of a feature.
#[derive(Clone, Copy, Debug, PartialEq, Eq, Structural)]
pub enum Field {
    /// The feature's name, a text.
    Name,
    /// The name of the country that administers the feature, a text.
    Admin,
    /// The income group of that country, a text out of five.
    IncomeGroup,
    /// The coloring bucket, a number.
    MapColor,
    /// Whether the feature is its country's capital, the number one if so.
    Capital,
    /// The least zoom at which the feature's label shows, a number.
    MinZoom,
}

impl Field {
    /// The key under which the map data holds the attribute.
    pub open spec fn key(self) -> Seq<char> {
        match self {
            Field::Name => "NAME"@,
            Field::Admin => "ADMIN"@,
            Field::IncomeGroup => "INCOME_GRP"@,
            Field::MapColor => "MAPCOLOR13"@,
            Field::Capital => "ADM0CAP"@,
            Field::MinZoom => "min_zoom"@,
        }
    }

    /// The key under which the map data holds the attribute.
    pub fn as_key(self) -> (key: &'static str)
        ensures
            key@ == self.key(),
    {
        match self {
            Field::Name => "NAME",
            Field::Admin => "ADMIN",
            Field::IncomeGroup => "INCOME_GRP",
            Field::MapColor => "MAPCOLOR13",
            Field::Capital => "ADM0CAP",
            Field::MinZoom => "min_zoom",
        }
    }
}

/// What is wrong with an attribute.
#[derive(Clone, Copy, Debug, PartialEq, Eq, Structural)]
pub enum Fault {
    /// The feature has no such attribute.
    Missing,
    /// The attribute is a number where a text is asked for, or the other way
    /// round, or neither.
    WrongType,
    /// The attribute is a text, but none of those that its field knows.
    UnknownCategory,
}

/// A feature whose attributes do not allow a decision.
#[derive(Clone, Copy, Debug, PartialEq, Eq)]
pub struct SchemaError<'a> {
    /// The name of the feature, where it has one.
    pub feature: Option<&'a str>,
    /// The attribute that the decision asked for.
    pub field: Field,
    /// What is wrong with it.
    pub fault: Fault,
}

} // verus!
