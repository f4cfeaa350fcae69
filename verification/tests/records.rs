use gaia_assetgen::Properties;
use globe_viewer::attributes::FeatureAttributes;
use globe_viewer::ieee::Binary32;
use globe_viewer::label::label_style;
use globe_viewer::map_mode::{bucket_color, MapMode};
use globe_viewer::paint::Paint;
use globe_viewer::schema::{Fault, Field, SchemaError};
use globe_viewer::state::State;
use serde_json::Value;

fn text(value: &str) -> Value {
    Value::String(value.to_string())
}

#[test]
fn a_country_record_is_filled() {
    let mut record = Properties::new();
    record.insert("ADMIN".to_string(), text("France"));
    record.insert("NAME".to_string(), text("France"));
    record.insert("INCOME_GRP".to_string(), text("1. High income: OECD"));
    record.insert("MAPCOLOR13".to_string(), Value::from(11.0));
    let attrs = FeatureAttributes::from_properties(&record);
    let state = State { map_mode: MapMode::Oecd, labels_enabled: true };
    assert_eq!(state.polygon_color_chooser(&attrs), Ok(Some(Paint::Hsla(bucket_color(11)))));
    assert_eq!(
        state.label_style_chooser(Binary32 { bits: 0.5f32.to_bits() }, &attrs),
        Err(SchemaError { feature: Some("France"), field: Field::MinZoom, fault: Fault::Missing })
    );
}

#[test]
fn a_city_record_is_labelled() {
    let mut record = Properties::new();
    record.insert("NAME".to_string(), text("Paris"));
    record.insert("ADM0CAP".to_string(), Value::from(1.0));
    record.insert("min_zoom".to_string(), Value::from(1.7));
    let attrs = FeatureAttributes::from_properties(&record);
    let state = State { map_mode: MapMode::All, labels_enabled: true };
    assert_eq!(
        state.label_style_chooser(Binary32 { bits: 0.5f32.to_bits() }, &attrs),
        Ok(Some(label_style("Paris", true)))
    );
    assert_eq!(state.label_style_chooser(Binary32 { bits: 1.0f32.to_bits() }, &attrs), Ok(None));
    assert_eq!(
        state.polygon_color_chooser(&attrs),
        Err(SchemaError { feature: Some("Paris"), field: Field::MapColor, fault: Fault::Missing })
    );
}
