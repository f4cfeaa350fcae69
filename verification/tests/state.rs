use globe_viewer::attributes::{FeatureAttributes, IncomeGroup};
use globe_viewer::ieee::{Binary32, Binary64};
use globe_viewer::label::{label_style, LabelStyle};
use globe_viewer::map_mode::{bucket_color, income_color, MapMode};
use globe_viewer::paint::{Hsla, Hue, Paint, Rgba};
use globe_viewer::schema::{Fault, Field, SchemaError};
use globe_viewer::state::{Button, Key, State};

fn height(value: f32) -> Binary32 {
    Binary32 { bits: value.to_bits() }
}

fn country<'a>(admin: &'a str, group: IncomeGroup, bucket: u8) -> FeatureAttributes<'a> {
    FeatureAttributes {
        name: Ok(admin),
        admin_name: Ok(admin),
        income_group: Ok(group),
        color_bucket: Ok(bucket),
        is_capital: Err(Fault::Missing),
        min_zoom: Err(Fault::Missing),
    }
}

fn city<'a>(name: &'a str, is_capital: bool, min_zoom: f64) -> FeatureAttributes<'a> {
    FeatureAttributes {
        name: Ok(name),
        admin_name: Err(Fault::Missing),
        income_group: Err(Fault::Missing),
        color_bucket: Err(Fault::Missing),
        is_capital: Ok(is_capital),
        min_zoom: Ok(Binary64 { bits: min_zoom.to_bits() }),
    }
}

fn press(key: Key) -> Option<Button> {
    Some(Button::Keyboard(key))
}

#[test]
fn starts_on_the_terrain_without_labels() {
    assert_eq!(State::new(), State { map_mode: MapMode::Terrain, labels_enabled: false });
}

#[test]
fn digits_select_the_modes() {
    let mut state = State::new();
    state.event(press(Key::D2));
    assert_eq!(state.map_mode, MapMode::All);
    state.event(press(Key::D3));
    assert_eq!(state.map_mode, MapMode::Oecd);
    state.event(press(Key::D4));
    assert_eq!(state.map_mode, MapMode::Income);
    state.event(press(Key::D5));
    assert_eq!(state.map_mode, MapMode::Exceptional);
    state.event(press(Key::D1));
    assert_eq!(state.map_mode, MapMode::Terrain);
    assert!(!state.labels_enabled);
}

#[test]
fn a_mode_is_selected_from_any_mode() {
    let keys = [Key::D1, Key::D2, Key::D3, Key::D4, Key::D5];
    let modes =
        [MapMode::Terrain, MapMode::All, MapMode::Oecd, MapMode::Income, MapMode::Exceptional];
    for from in modes {
        for labels_enabled in [false, true] {
            let mut at = 0;
            while at < 5 {
                let mut state = State { map_mode: from, labels_enabled };
                state.event(press(keys[at]));
                assert_eq!(state, State { map_mode: modes[at], labels_enabled });
                state.event(press(keys[at]));
                assert_eq!(state, State { map_mode: modes[at], labels_enabled });
                at += 1;
            }
        }
    }
}

#[test]
fn zero_flips_the_labels() {
    let mut state = State { map_mode: MapMode::Income, labels_enabled: false };
    state.event(press(Key::D0));
    assert_eq!(state, State { map_mode: MapMode::Income, labels_enabled: true });
    state.event(press(Key::D0));
    assert_eq!(state, State { map_mode: MapMode::Income, labels_enabled: false });
}

#[test]
fn other_events_change_nothing() {
    for labels_enabled in [false, true] {
        let before = State { map_mode: MapMode::Oecd, labels_enabled };
        let mut state = before;
        state.event(None);
        assert_eq!(state, before);
        state.event(press(Key::Other));
        assert_eq!(state, before);
        state.event(Some(Button::Other));
        assert_eq!(state, before);
    }
}

#[test]
fn oecd_country_is_filled_by_its_bucket_and_hidden_on_the_terrain() {
    let france = country("France", IncomeGroup::HighIncomeOecd, 11);
    let mut state = State::new();
    state.event(press(Key::D3));
    assert_eq!(state.map_mode.should_show(&france), Ok(true));
    let expected = Paint::Hsla(Hsla {
        hue: Hue::Thirteenths(11),
        saturation: 100,
        lightness: 30,
        alpha: 64,
    });
    assert_eq!(state.map_mode.color(&france), Ok(expected));
    assert_eq!(state.polygon_color_chooser(&france), Ok(Some(expected)));
    state.event(press(Key::D1));
    assert_eq!(state.map_mode.should_show(&france), Ok(false));
    assert_eq!(state.polygon_color_chooser(&france), Ok(None));
}

#[test]
fn polygon_color_by_mode() {
    let chad = country("Chad", IncomeGroup::LowIncome, 6);
    let mut state = State::new();
    assert_eq!(state.polygon_color_chooser(&chad), Ok(None));
    state.map_mode = MapMode::All;
    assert_eq!(state.polygon_color_chooser(&chad), Ok(Some(Paint::Hsla(bucket_color(6)))));
    state.map_mode = MapMode::Oecd;
    assert_eq!(state.polygon_color_chooser(&chad), Ok(None));
    state.map_mode = MapMode::Income;
    assert_eq!(
        state.polygon_color_chooser(&chad),
        Ok(Some(Paint::Rgba(Rgba { red: 255, green: 0, blue: 0, alpha: 100 })))
    );
    assert_eq!(
        state.polygon_color_chooser(&chad),
        Ok(Some(Paint::Rgba(income_color(IncomeGroup::LowIncome))))
    );
    state.map_mode = MapMode::Exceptional;
    assert_eq!(state.polygon_color_chooser(&chad), Ok(None));
    assert_eq!(state.polygon_color_chooser_at(&chad, 3), Ok(None));
}

#[test]
fn the_exceptional_country_is_filled_by_the_clock() {
    let usa = country("United States of America", IncomeGroup::HighIncomeOecd, 1);
    let state = State { map_mode: MapMode::Exceptional, labels_enabled: false };
    assert_eq!(
        state.polygon_color_chooser_at(&usa, 2),
        Ok(Some(Paint::Hsla(Hsla { hue: Hue::Degrees(200), saturation: 100, lightness: 50, alpha: 100 })))
    );
    match state.polygon_color_chooser(&usa) {
        Ok(Some(Paint::Hsla(fill))) => {
            assert_eq!((fill.saturation, fill.lightness, fill.alpha), (100, 50, 100));
            match fill.hue {
                Hue::Degrees(degrees) => assert!(degrees < 360 && degrees % 20 == 0),
                Hue::Thirteenths(_) => panic!("the clock's hue is in degrees"),
            }
        }
        other => panic!("{:?}", other),
    }
}

#[test]
fn polygon_color_fails_on_what_it_asks_for() {
    let mut broken = country("Atlantis", IncomeGroup::LowIncome, 6);
    broken.color_bucket = Err(Fault::WrongType);
    broken.income_group = Err(Fault::UnknownCategory);
    broken.admin_name = Err(Fault::Missing);
    let mut state = State::new();
    assert_eq!(state.polygon_color_chooser(&broken), Ok(None));
    state.map_mode = MapMode::All;
    assert_eq!(
        state.polygon_color_chooser(&broken),
        Err(SchemaError { feature: Some("Atlantis"), field: Field::MapColor, fault: Fault::WrongType })
    );
    state.map_mode = MapMode::Oecd;
    assert_eq!(state.polygon_color_chooser(&broken), Ok(None));
    state.map_mode = MapMode::Income;
    assert_eq!(
        state.polygon_color_chooser(&broken),
        Err(SchemaError {
            feature: Some("Atlantis"),
            field: Field::IncomeGroup,
            fault: Fault::UnknownCategory
        })
    );
    state.map_mode = MapMode::Exceptional;
    assert_eq!(
        state.polygon_color_chooser(&broken),
        Err(SchemaError { feature: Some("Atlantis"), field: Field::Admin, fault: Fault::Missing })
    );
}

#[test]
fn no_labels_while_they_are_switched_off() {
    let state = State::new();
    let paris = city("Paris", true, 1.7);
    for altitude in [0.0f32, 0.001, 0.5, 10.0, f32::INFINITY, f32::NAN] {
        assert_eq!(state.label_style_chooser(height(altitude), &paris), Ok(None));
    }
    let broken = country("France", IncomeGroup::HighIncomeOecd, 3);
    assert_eq!(state.label_style_chooser(height(0.5), &broken), Ok(None));
}

#[test]
fn no_label_for_a_feature_out_of_zoom() {
    let state = State { map_mode: MapMode::Terrain, labels_enabled: true };
    let paris = city("Paris", true, 1.7);
    // 1.0 * 1.7 is more than 1.5, and so is 0.9 * 1.7 = 1.53.
    assert_eq!(state.label_style_chooser(height(1.0), &paris), Ok(None));
    assert_eq!(state.label_style_chooser(height(0.9), &paris), Ok(None));
    // 0.875 * 1.7 = 1.4875.
    assert_eq!(state.label_style_chooser(height(0.875), &paris), Ok(Some(label_style("Paris", true))));
}

#[test]
fn labels_of_capitals_and_of_other_features() {
    let state = State { map_mode: MapMode::All, labels_enabled: true };
    let paris = city("Paris", true, 1.7);
    let lyon = city("Lyon", false, 3.0);
    assert_eq!(
        state.label_style_chooser(height(0.5), &paris),
        Ok(Some(LabelStyle {
            text: "Paris",
            scale: 30,
            text_color: Rgba { red: 255, green: 255, blue: 0, alpha: 255 },
            border_color: Rgba { red: 0, green: 0, blue: 0, alpha: 255 },
            border_width: 1,
        }))
    );
    assert_eq!(
        state.label_style_chooser(height(0.5), &lyon),
        Ok(Some(LabelStyle {
            text: "Lyon",
            scale: 20,
            text_color: Rgba { red: 255, green: 255, blue: 255, alpha: 255 },
            border_color: Rgba { red: 0, green: 0, blue: 0, alpha: 255 },
            border_width: 1,
        }))
    );
    // 0.5 * 3.0 is one and a half, not more: the label shows.
    assert_eq!(state.label_style_chooser(height(0.500_000_1), &lyon), Ok(None));
}

#[test]
fn label_fails_on_what_it_asks_for() {
    let state = State { map_mode: MapMode::All, labels_enabled: true };
    let mut broken = city("Paris", true, 1.0);
    broken.min_zoom = Err(Fault::Missing);
    assert_eq!(
        state.label_style_chooser(height(0.5), &broken),
        Err(SchemaError { feature: Some("Paris"), field: Field::MinZoom, fault: Fault::Missing })
    );
    broken.min_zoom = Ok(Binary64 { bits: 1.0f64.to_bits() });
    broken.is_capital = Err(Fault::WrongType);
    assert_eq!(
        state.label_style_chooser(height(0.5), &broken),
        Err(SchemaError { feature: Some("Paris"), field: Field::Capital, fault: Fault::WrongType })
    );
    // Out of zoom, name and capital mark are not asked for.
    assert_eq!(state.label_style_chooser(height(2.0), &broken), Ok(None));
    broken.name = Err(Fault::Missing);
    assert_eq!(
        state.label_style_chooser(height(0.5), &broken),
        Err(SchemaError { feature: None, field: Field::Name, fault: Fault::Missing })
    );
}
