//! What the viewer reads of a map feature.

use crate::ieee::{Binary64, ONE};
use crate::json::{as_number, as_text, entries, get, number_of, text_of};
use crate::schema::{Fault, Field, SchemaError};
use crate::text::same_text;
use gaia_assetgen::Properties;
use serde_json::Value;
use vstd::prelude::*;

verus! {

/// The income group of a country, from the richest to the poorest.
#[derive(Clone, Copy, Debug, PartialEq, Eq, Structural)]
pub enum IncomeGroup {
    HighIncomeOecd,
    HighIncomeNonOecd,
    UpperMiddleIncome,
    LowerMiddleIncome,
    LowIncome,
}

impl IncomeGroup {
    /// The text by which the map data names the group.
    pub open spec fn label(self) -> Seq<char> {
        match self {
            IncomeGroup::HighIncomeOecd => "1. High income: OECD"@,
            IncomeGroup::HighIncomeNonOecd => "2. High income: nonOECD"@,
            IncomeGroup::UpperMiddleIncome => "3. Upper middle income"@,
            IncomeGroup::LowerMiddleIncome => "4. Lower middle income"@,
            IncomeGroup::LowIncome => "5. Low income"@,
        }
    }

    /// The group that a text names, if it names one.
    pub open spec fn named(label: Seq<char>) -> Option<IncomeGroup> {
        if label == IncomeGroup::HighIncomeOecd.label() {
            Some(IncomeGroup::HighIncomeOecd)
        } else if label == IncomeGroup::HighIncomeNonOecd.label() {
            Some(IncomeGroup::HighIncomeNonOecd)
        } else if label == IncomeGroup::UpperMiddleIncome.label() {
            Some(IncomeGroup::UpperMiddleIncome)
        } else if label == IncomeGroup::LowerMiddleIncome.label() {
            Some(IncomeGroup::LowerMiddleIncome)
        } else if label == IncomeGroup::LowIncome.label() {
            Some(IncomeGroup::LowIncome)
        } else {
            None
        }
    }

    /// Reads a group from the text that names it; any other text names none.
    pub fn from_label(label: &str) -> (group: Option<IncomeGroup>)
        ensures
            group == Self::named(label@),
    {
        if same_text(label, "1. High income: OECD") {
            Some(IncomeGroup::HighIncomeOecd)
        } else if same_text(label, "2. High income: nonOECD") {
            Some(IncomeGroup::HighIncomeNonOecd)
        } else if same_text(label, "3. Upper middle income") {
            Some(IncomeGroup::UpperMiddleIncome)
        } else if same_text(label, "4. Lower middle income") {
            Some(IncomeGroup::LowerMiddleIncome)
        } else if same_text(label, "5. Low income") {
            Some(IncomeGroup::LowIncome)
        } else {
            None
        }
    }

    /// The text that names the group.
    pub fn as_label(self) -> (label: &'static str)
        ensures
            label@ == self.label(),
    {
        match self {
            IncomeGroup::HighIncomeOecd => "1. High income: OECD",
            IncomeGroup::HighIncomeNonOecd => "2. High income: nonOECD",
            IncomeGroup::UpperMiddleIncome => "3. Upper middle income",
            IncomeGroup::LowerMiddleIncome => "4. Lower middle income",
            IncomeGroup::LowIncome => "5. Low income",
        }
    }
}

/// No two groups share a label, so reading a group's own label gives the
/// group back.
pub proof fn lemma_label_names_its_group(group: IncomeGroup)
    ensures
        IncomeGroup::named(group.label()) == Some(group),
{
    reveal_strlit("1. High income: OECD");
    reveal_strlit("2. High income: nonOECD");
    reveal_strlit("3. Upper middle income");
    reveal_strlit("4. Lower middle income");
    reveal_strlit("5. Low income");
    assert("1. High income: OECD"@[0] == '1');
    assert("2. High income: nonOECD"@[0] == '2');
    assert("3. Upper middle income"@[0] == '3');
    assert("4. Lower middle income"@[0] == '4');
    assert("5. Low income"@[0] == '5');
}

/// The attributes of one map feature, each as reading it went.
///
/// Each attribute is read on its own: a feature that lacks what a decision
/// does not ask for is still decided.
#[derive(Clone, Copy, Debug, PartialEq, Eq)]
pub struct FeatureAttributes<'a> {
    /// The feature's name, as a label shows it.
    pub name: Result<&'a str, Fault>,
    /// The name of the country that administers the feature.
    pub admin_name: Result<&'a str, Fault>,
    /// The income group of that country.
    pub income_group: Result<IncomeGroup, Fault>,
    /// The coloring bucket, chosen so that neighbours differ.
    pub color_bucket: Result<u8, Fault>,
    /// Whether the feature is the capital of its country.
    pub is_capital: Result<bool, Fault>,
    /// The least zoom at which the feature's label shows.
    pub min_zoom: Result<Binary64, Fault>,
}

/// The attributes of one map feature, with each text as its characters.
pub struct FeatureAttributesView {
    pub name: Result<Seq<char>, Fault>,
    pub admin_name: Result<Seq<char>, Fault>,
    pub income_group: Result<IncomeGroup, Fault>,
    pub color_bucket: Result<u8, Fault>,
    pub is_capital: Result<bool, Fault>,
    pub min_zoom: Result<Binary64, Fault>,
}

/// A text that was read, as its characters.
pub open spec fn characters(text: Result<&str, Fault>) -> Result<Seq<char>, Fault> {
    match text {
        Ok(text) => Ok(text@),
        Err(fault) => Err(fault),
    }
}

impl<'a> View for FeatureAttributes<'a> {
    type V = FeatureAttributesView;

    open spec fn view(&self) -> FeatureAttributesView {
        FeatureAttributesView {
            name: characters(self.name),
            admin_name: characters(self.admin_name),
            income_group: self.income_group,
            color_bucket: self.color_bucket,
            is_capital: self.is_capital,
            min_zoom: self.min_zoom,
        }
    }
}

/// The text under a field's key: missing where the record has no such key,
/// of the wrong type where the value under it is no text.
pub open spec fn text_in(record: Map<Seq<char>, Value>, field: Field) -> Result<Seq<char>, Fault> {
    if !record.contains_key(field.key()) {
        Err(Fault::Missing)
    } else {
        match text_of(record[field.key()]) {
            Some(text) => Ok(text),
            None => Err(Fault::WrongType),
        }
    }
}

/// The number under a field's key: missing where the record has no such key,
/// of the wrong type where the value under it is no number.
pub open spec fn number_in(record: Map<Seq<char>, Value>, field: Field) -> Result<Binary64, Fault> {
    if !record.contains_key(field.key()) {
        Err(Fault::Missing)
    } else {
        match number_of(record[field.key()]) {
            Some(bits) => Ok(Binary64 { bits }),
            None => Err(Fault::WrongType),
        }
    }
}

/// The income group that a record names: an unknown category where the text
/// under the key is none of the five labels.
pub open spec fn income_group_in(record: Map<Seq<char>, Value>) -> Result<IncomeGroup, Fault> {
    match text_in(record, Field::IncomeGroup) {
        Ok(label) => match IncomeGroup::named(label) {
            Some(group) => Ok(group),
            None => Err(Fault::UnknownCategory),
        },
        Err(fault) => Err(fault),
    }
}

/// The coloring bucket that a record holds: its number without what follows
/// the point, held between 0 and 255.
pub open spec fn color_bucket_in(record: Map<Seq<char>, Value>) -> Result<u8, Fault> {
    match number_in(record, Field::MapColor) {
        Ok(number) => Ok(number.to_u8()),
        Err(fault) => Err(fault),
    }
}

/// Whether a record marks a capital: whether its number is one.
pub open spec fn is_capital_in(record: Map<Seq<char>, Value>) -> Result<bool, Fault> {
    match number_in(record, Field::Capital) {
        Ok(number) => Ok(number.is_equal_to(Binary64 { bits: ONE })),
        Err(fault) => Err(fault),
    }
}

/// What a record gives for each attribute.
pub open spec fn attributes_in(record: Map<Seq<char>, Value>) -> FeatureAttributesView {
    FeatureAttributesView {
        name: text_in(record, Field::Name),
        admin_name: text_in(record, Field::Admin),
        income_group: income_group_in(record),
        color_bucket: color_bucket_in(record),
        is_capital: is_capital_in(record),
        min_zoom: number_in(record, Field::MinZoom),
    }
}

/// Reads the text under a field's key.
pub fn read_text<'a>(record: &'a Properties, field: Field) -> (text: Result<&'a str, Fault>)
    ensures
        characters(text) == text_in(entries(*record), field),
{
    match get(record, field.as_key()) {
        None => Err(Fault::Missing),
        Some(value) => match as_text(value) {
            Some(text) => Ok(text),
            None => Err(Fault::WrongType),
        },
    }
}

/// Reads the number under a field's key.
pub fn read_number(record: &Properties, field: Field) -> (number: Result<Binary64, Fault>)
    ensures
        number == number_in(entries(*record), field),
{
    match get(record, field.as_key()) {
        None => Err(Fault::Missing),
        Some(value) => match as_number(value) {
            Some(number) => Ok(number),
            None => Err(Fault::WrongType),
        },
    }
}

impl<'a> FeatureAttributes<'a> {
    /// Reads each attribute of a feature from its record.
    pub fn from_properties(record: &'a Properties) -> (attrs: FeatureAttributes<'a>)
        ensures
            attrs@ == attributes_in(entries(*record)),
    {
        let income_group = match read_text(record, Field::IncomeGroup) {
            Ok(label) => match IncomeGroup::from_label(label) {
                Some(group) => Ok(group),
                None => Err(Fault::UnknownCategory),
            },
            Err(fault) => Err(fault),
        };
        let color_bucket = match read_number(record, Field::MapColor) {
            Ok(number) => Ok(number.to_u8()),
            Err(fault) => Err(fault),
        };
        let is_capital = match read_number(record, Field::Capital) {
            Ok(number) => Ok(number.is_equal_to(Binary64 { bits: ONE })),
            Err(fault) => Err(fault),
        };
        FeatureAttributes {
            name: read_text(record, Field::Name),
            admin_name: read_text(record, Field::Admin),
            income_group,
            color_bucket,
            is_capital,
            min_zoom: read_number(record, Field::MinZoom),
        }
    }

    /// What `error` gives.
    pub open spec fn spec_error(self, field: Field, fault: Fault) -> SchemaError<'a> {
        SchemaError {
            feature: match self.name {
                Ok(name) => Some(name),
                Err(_) => None,
            },
            field,
            fault,
        }
    }

    /// What a decision reports when it cannot do without an attribute that
    /// was not read: the field, what is wrong with it, and the name of the
    /// feature, where that was read.
    #[verifier::when_used_as_spec(spec_error)]
    pub fn error(self, field: Field, fault: Fault) -> (error: SchemaError<'a>)
        ensures
            error == self.spec_error(field, fault),
    {
        SchemaError {
            feature: match self.name {
                Ok(name) => Some(name),
                Err(_) => None,
            },
            field,
            fault,
        }
    }
}

} // verus!
