//! The configuration of the compositor.
pub mod animation;
pub mod decoration;
pub mod general;
pub mod input;
pub mod keybind;
pub mod maps;
pub mod output;
pub mod rules;
pub mod ui;
