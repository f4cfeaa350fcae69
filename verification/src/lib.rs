//! Decision core of an interactive globe viewer.

pub mod attributes;
pub mod camera;
pub mod clock;
pub mod ieee;
pub mod json;
pub mod label;
pub mod lod;
pub mod map_mode;
pub mod paint;
pub mod schema;
pub mod state;
pub mod text;
