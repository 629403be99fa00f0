//! Screens.

pub mod home;
