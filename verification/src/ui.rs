//! The user interface: what it is made of, its widgets and its screens.

pub mod decimal;
pub mod element;
pub mod layout;
pub mod theme;
pub mod views;
pub mod widgets;
