//! Verified core of a desktop automation toolkit: saturating integers and
//! geometry, colors, display selection, an RGBA image model and its drawing
//! operations, mouse gestures, keyboard keys with key and text triggers, the
//! console's rendering of script values, stack-trace frames, schedules,
//! durations, and the update checker's decisions.

pub mod callstack;
pub mod clipboard;
pub mod codec;
pub mod color;
pub mod display;
pub mod displays;
pub mod drawing;
pub mod durations;
pub mod geometry;
pub mod image_laws;
pub mod image_options;
pub mod input;
pub mod inspect;
pub mod js_displays;
pub mod js_image;
pub mod key_names;
pub mod key_triggers;
pub mod keys;
pub mod labels;
pub mod mouse;
pub mod named_colors;
pub mod numeric;
pub mod numeric_convert;
pub mod numeric_ops;
pub mod point;
pub mod raster;
pub mod registration;
pub mod schedule;
pub mod text;
pub mod text_replacements;
pub mod text_triggers;
pub mod units;
pub mod updater;
