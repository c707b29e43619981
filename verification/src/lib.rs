//! Scheduling core of a hydration reminder service: the subscriber registry,
//! the stored form of its records, the custom message table, the message
//! resolver and the periodic sweep that decides who is due.

pub mod text;
pub mod frequency;
pub mod messages;
pub mod clock;
pub mod database;
pub mod registry;
pub mod custom_messages;
pub mod reminder;
pub mod buttons;
pub mod commands;
