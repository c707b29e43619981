//! The buttons a user answers the question of the cadence with.

pub mod register_buttons;
