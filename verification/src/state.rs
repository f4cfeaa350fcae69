//! The viewer's state: the display mode and the label switch, what a key
//! press does to them, and what they decide for each feature.

use crate::attributes::FeatureAttributes;
use crate::ieee::Binary32;
use crate::label::{is_out_of_zoom, label_style, out_of_zoom, style_of, LabelStyle};
use crate::lod::{level_at, lod_level};
use crate::map_mode::{exceptional_admin, MapMode};
use crate::paint::Paint;
use crate::schema::{Field, SchemaError};
use vstd::prelude::*;

verus! {

/// A key of the keyboard: the digits that the viewer listens to, and any
/// other key.
#[derive(Clone, Copy, Debug, PartialEq, Eq, Structural)]
pub enum Key {
    D0,
    D1,
    D2,
    D3,
    D4,
    D5,
    Other,
}

/// A button of an input device.
#[derive(Clone, Copy, Debug, PartialEq, Eq, Structural)]
pub enum Button {
    /// A key of the keyboard.
    Keyboard(Key),
    /// A button of a mouse or of a controller.
    Other,
}

/// The display mode that a press selects, if it selects one: the digits 1 to
/// 5 select the modes in the order of their declaration.
pub open spec fn selected_mode(pressed: Option<Button>) -> Option<MapMode> {
    match pressed {
        Some(Button::Keyboard(Key::D1)) => Some(MapMode::Terrain),
        Some(Button::Keyboard(Key::D2)) => Some(MapMode::All),
        Some(Button::Keyboard(Key::D3)) => Some(MapMode::Oecd),
        Some(Button::Keyboard(Key::D4)) => Some(MapMode::Income),
        Some(Button::Keyboard(Key::D5)) => Some(MapMode::Exceptional),
        _ => None,
    }
}

/// Whether a press flips the label switch: the digit 0 does.
pub open spec fn toggles_labels(pressed: Option<Button>) -> bool {
    pressed == Some(Button::Keyboard(Key::D0))
}

/// The display mode and the label switch.
#[derive(Clone, Copy, Debug, PartialEq, Eq, Structural)]
pub struct State {
    pub map_mode: MapMode,
    pub labels_enabled: bool,
}

impl State {
    /// The state that the viewer starts in: bare terrain, no labels.
    pub fn new() -> (state: State)
        ensures
            state == (State { map_mode: MapMode::Terrain, labels_enabled: false }),
    {
        State { map_mode: MapMode::Terrain, labels_enabled: false }
    }

    /// The state after an event, of which `pressed` is the button that it
    /// reports as pressed, if it reports one.
    pub open spec fn after(self, pressed: Option<Button>) -> State {
        State {
            map_mode: match selected_mode(pressed) {
                Some(mode) => mode,
                None => self.map_mode,
            },
            labels_enabled: self.labels_enabled != toggles_labels(pressed),
        }
    }

    /// The fill of a feature `unix_seconds` after the epoch: nothing where
    /// the display mode does not show the feature, and else what the mode
    /// paints it with.
    pub open spec fn fill_at<'a>(self, attrs: FeatureAttributes<'a>, unix_seconds: u64) -> Result<
        Option<Paint>,
        SchemaError<'a>,
    > {
        match self.map_mode.shows(attrs) {
            Ok(true) => match self.map_mode.paint_at(attrs, unix_seconds) {
                Ok(paint) => Ok(Some(paint)),
                Err(error) => Err(error),
            },
            Ok(false) => Ok(None),
            Err(error) => Err(error),
        }
    }

    /// The label of a feature seen from a height: nothing where labels are
    /// switched off, whatever the feature and the height; nothing where the
    /// camera is too high for this feature's label; and else the feature's
    /// name in the style of its kind.
    pub open spec fn label_at<'a>(
        self,
        camera_height: Binary32,
        attrs: FeatureAttributes<'a>,
    ) -> Result<Option<LabelStyle<'a>>, SchemaError<'a>> {
        if !self.labels_enabled {
            Ok(None)
        } else {
            match attrs.min_zoom {
                Err(fault) => Err(attrs.error(Field::MinZoom, fault)),
                Ok(min_zoom) => if out_of_zoom(camera_height, min_zoom) {
                    Ok(None)
                } else {
                    match attrs.name {
                        Err(fault) => Err(attrs.error(Field::Name, fault)),
                        Ok(name) => match attrs.is_capital {
                            Err(fault) => Err(attrs.error(Field::Capital, fault)),
                            Ok(is_capital) => Ok(Some(style_of(name, is_capital))),
                        },
                    }
                },
            }
        }
    }

    /// Takes in one event, of which `pressed` is the button that it reports
    /// as pressed, if it reports one. A digit from 1 to 5 selects a display
    /// mode, whatever the mode was; the digit 0 flips the label switch; any
    /// other event leaves the state as it is.
    pub fn event(&mut self, pressed: Option<Button>)
        ensures
            *final(self) == old(self).after(pressed),
    {
        match pressed {
            Some(Button::Keyboard(Key::D1)) => {
                self.map_mode = MapMode::Terrain;
            },
            Some(Button::Keyboard(Key::D2)) => {
                self.map_mode = MapMode::All;
            },
            Some(Button::Keyboard(Key::D3)) => {
                self.map_mode = MapMode::Oecd;
            },
            Some(Button::Keyboard(Key::D4)) => {
                self.map_mode = MapMode::Income;
            },
            Some(Button::Keyboard(Key::D5)) => {
                self.map_mode = MapMode::Exceptional;
            },
            Some(Button::Keyboard(Key::D0)) => {
                self.labels_enabled = !self.labels_enabled;
            },
            _ => {},
        }
    }

    /// The level of detail to load at an altitude of the camera.
    pub fn desired_level(&self, camera_height: Binary32) -> (level: u8)
        ensures
            level == lod_level(camera_height),
    {
        level_at(camera_height)
    }

    /// The fill of a feature when the clock stands `unix_seconds` after the
    /// epoch, nothing where the feature is not to be filled, or the attribute
    /// that the decision asked for in vain.
    pub fn polygon_color_chooser_at<'a>(
        &self,
        attrs: &FeatureAttributes<'a>,
        unix_seconds: u64,
    ) -> (fill: Result<Option<Paint>, SchemaError<'a>>)
        ensures
            fill == self.fill_at(*attrs, unix_seconds),
    {
        match self.map_mode.should_show(attrs) {
            Ok(true) => match self.map_mode.color_at(attrs, unix_seconds) {
                Ok(paint) => Ok(Some(paint)),
                Err(error) => Err(error),
            },
            Ok(false) => Ok(None),
            Err(error) => Err(error),
        }
    }

    /// The fill of a feature now, nothing where the feature is not to be
    /// filled, or the attribute that the decision asked for in vain. Only the
    /// mode `Exceptional` looks at the clock.
    pub fn polygon_color_chooser<'a>(&self, attrs: &FeatureAttributes<'a>) -> (fill: Result<
        Option<Paint>,
        SchemaError<'a>,
    >)
        ensures
            exists|unix_seconds: u64| fill == #[trigger] self.fill_at(*attrs, unix_seconds),
            !(self.map_mode is Exceptional) ==> forall|unix_seconds: u64|
                fill == #[trigger] self.fill_at(*attrs, unix_seconds),
    {
        match self.map_mode.should_show(attrs) {
            Ok(true) => {
                let painted = self.map_mode.color(attrs);
                proof {
                    let unix_seconds = choose|unix_seconds: u64|
                        painted == #[trigger] self.map_mode.paint_at(*attrs, unix_seconds);
                    assert(self.fill_at(*attrs, unix_seconds) == match painted {
                        Ok(paint) => Ok::<Option<Paint>, SchemaError<'a>>(Some(paint)),
                        Err(error) => Err(error),
                    });
                }
                match painted {
                    Ok(paint) => Ok(Some(paint)),
                    Err(error) => Err(error),
                }
            },
            Ok(false) => {
                assert(self.fill_at(*attrs, 0) == Ok::<Option<Paint>, SchemaError<'a>>(None));
                Ok(None)
            },
            Err(error) => {
                assert(self.fill_at(*attrs, 0) == Err::<Option<Paint>, SchemaError<'a>>(error));
                Err(error)
            },
        }
    }

    /// The label of a feature seen from the camera's height, nothing where
    /// the feature gets none, or the attribute that the decision asked for in
    /// vain.
    pub fn label_style_chooser<'a>(
        &self,
        camera_height: Binary32,
        attrs: &FeatureAttributes<'a>,
    ) -> (label: Result<Option<LabelStyle<'a>>, SchemaError<'a>>)
        ensures
            label == self.label_at(camera_height, *attrs),
    {
        if !self.labels_enabled {
            return Ok(None);
        }
        let min_zoom = match attrs.min_zoom {
            Ok(min_zoom) => min_zoom,
            Err(fault) => {
                return Err(attrs.error(Field::MinZoom, fault));
            },
        };
        if is_out_of_zoom(camera_height, min_zoom) {
            return Ok(None);
        }
        let name = match attrs.name {
            Ok(name) => name,
            Err(fault) => {
                return Err(attrs.error(Field::Name, fault));
            },
        };
        let is_capital = match attrs.is_capital {
            Ok(is_capital) => is_capital,
            Err(fault) => {
                return Err(attrs.error(Field::Capital, fault));
            },
        };
        Ok(Some(label_style(name, is_capital)))
    }
}

/// Selecting a display mode does not look at the mode that was: whatever the
/// state, after the press the mode is the selected one, and the label switch
/// is as it was.
pub proof fn lemma_selection_is_unconditional(one: State, other: State, pressed: Option<Button>)
    requires
        selected_mode(pressed) is Some,
    ensures
        one.after(pressed).map_mode == selected_mode(pressed)->Some_0,
        one.after(pressed).map_mode == other.after(pressed).map_mode,
        one.after(pressed).labels_enabled == one.labels_enabled,
{
}

/// Flipping the label switch leaves the display mode alone, and flipping it
/// twice leaves the state as it was.
pub proof fn lemma_toggle_is_an_involution(state: State, pressed: Option<Button>)
    requires
        toggles_labels(pressed),
    ensures
        state.after(pressed).map_mode == state.map_mode,
        state.after(pressed).labels_enabled == !state.labels_enabled,
        state.after(pressed).after(pressed) == state,
{
}

/// An event that neither selects a mode nor flips the switch changes nothing.
pub proof fn lemma_other_events_change_nothing(state: State, pressed: Option<Button>)
    requires
        selected_mode(pressed) is None,
        !toggles_labels(pressed),
    ensures
        state.after(pressed) == state,
{
}

/// With labels switched off no feature gets a label, whatever it is and from
/// whatever height it is seen.
pub proof fn lemma_no_labels_when_switched_off(
    state: State,
    camera_height: Binary32,
    attrs: FeatureAttributes<'_>,
)
    requires
        !state.labels_enabled,
    ensures
        state.label_at(camera_height, attrs) == Ok::<Option<LabelStyle<'_>>, SchemaError<'_>>(None),
{
}

/// A feature for whose label the camera is too high gets none.
pub proof fn lemma_no_label_out_of_zoom(
    state: State,
    camera_height: Binary32,
    attrs: FeatureAttributes<'_>,
)
    requires
        attrs.min_zoom matches Ok(min_zoom) && out_of_zoom(camera_height, min_zoom),
    ensures
        state.label_at(camera_height, attrs) == Ok::<Option<LabelStyle<'_>>, SchemaError<'_>>(None),
{
}

/// With labels switched on, a feature in zoom gets its name as a label: at
/// size 30 if it is a capital, at size 20 if it is not.
pub proof fn lemma_label_in_zoom(
    state: State,
    camera_height: Binary32,
    attrs: FeatureAttributes<'_>,
)
    requires
        state.labels_enabled,
        attrs.min_zoom matches Ok(min_zoom) && !out_of_zoom(camera_height, min_zoom),
        attrs.name is Ok,
        attrs.is_capital is Ok,
    ensures
        state.label_at(camera_height, attrs) matches Ok(Some(style)) && style.text
            == attrs.name->Ok_0 && style.scale == (if attrs.is_capital->Ok_0 {
            30u32
        } else {
            20u32
        }),
{
}

/// In the mode `Exceptional` the features of the one country are filled and
/// no others, whatever the time and whether labels are switched on or not.
pub proof fn lemma_exceptional_fills_one_country(
    state: State,
    attrs: FeatureAttributes<'_>,
    unix_seconds: u64,
)
    requires
        state.map_mode is Exceptional,
        attrs.admin_name is Ok,
    ensures
        state.fill_at(attrs, unix_seconds) matches Ok(Some(_)) <==> attrs.admin_name->Ok_0@
            == exceptional_admin(),
        attrs.admin_name->Ok_0@ != exceptional_admin() ==> state.fill_at(attrs, unix_seconds) == Ok::<
            Option<Paint>,
            SchemaError<'_>,
        >(None),
{
}

/// In the mode `Terrain` no feature is filled, whatever it is and whatever
/// the time.
pub proof fn lemma_terrain_fills_nothing(
    state: State,
    attrs: FeatureAttributes<'_>,
    unix_seconds: u64,
)
    requires
        state.map_mode is Terrain,
    ensures
        state.fill_at(attrs, unix_seconds) == Ok::<Option<Paint>, SchemaError<'_>>(None),
{
}

} // verus!
