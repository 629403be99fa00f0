//! Widgets that screens are composed of.

pub mod button;
