//! The three cadence buttons: their identifiers and the cadence each stands
//! for.

use vstd::prelude::*;
use crate::frequency::ReminderFrequency;
use crate::text::same_text;

verus! {

pub const BUTTON_30_MIN_ID: &'static str = "button30min";

pub const BUTTON_1_HOUR_ID: &'static str = "button1h";

pub const BUTTON_3_HOURS_ID: &'static str = "button3h";

/// A choice that no button stands for.
#[derive(Debug, Clone, Copy, PartialEq, Eq, Structural)]
pub struct UnknownChoice;

impl UnknownChoice {
    /// The error in words.
    pub fn message(&self) -> (text: &'static str)
        ensures
            text@ == "This value shouldn't exist >:("@,
    {
        "This value shouldn't exist >:("
    }
}

/// The identifier of the button of a cadence.
pub open spec fn button_id_spec(frequency: ReminderFrequency) -> Seq<char> {
    match frequency {
        ReminderFrequency::ThirtyMin => BUTTON_30_MIN_ID@,
        ReminderFrequency::OneHour => BUTTON_1_HOUR_ID@,
        ReminderFrequency::ThreeHours => BUTTON_3_HOURS_ID@,
    }
}

/// The cadence a button identifier stands for, if it is one of the three.
pub open spec fn choice_of(choice: Seq<char>) -> Option<ReminderFrequency> {
    if choice == BUTTON_30_MIN_ID@ {
        Some(ReminderFrequency::ThirtyMin)
    } else if choice == BUTTON_1_HOUR_ID@ {
        Some(ReminderFrequency::OneHour)
    } else if choice == BUTTON_3_HOURS_ID@ {
        Some(ReminderFrequency::ThreeHours)
    } else {
        None
    }
}

/// The identifier of the button of a cadence.
pub fn button_id(frequency: ReminderFrequency) -> (id: &'static str)
    ensures
        id@ == button_id_spec(frequency),
{
    match frequency {
        ReminderFrequency::ThirtyMin => BUTTON_30_MIN_ID,
        ReminderFrequency::OneHour => BUTTON_1_HOUR_ID,
        ReminderFrequency::ThreeHours => BUTTON_3_HOURS_ID,
    }
}

/// The cadence chosen by pressing a button; an error for an identifier that is
/// none of the three.
pub fn resolve_user_choice(choice: &String) -> (outcome: Result<ReminderFrequency, UnknownChoice>)
    ensures
        outcome == match choice_of(choice@) {
            Some(frequency) => Ok::<ReminderFrequency, UnknownChoice>(frequency),
            None => Err::<ReminderFrequency, UnknownChoice>(UnknownChoice),
        },
{
    let pressed = choice.as_str();
    if same_text(pressed, BUTTON_30_MIN_ID) {
        Ok(ReminderFrequency::ThirtyMin)
    } else if same_text(pressed, BUTTON_1_HOUR_ID) {
        Ok(ReminderFrequency::OneHour)
    } else if same_text(pressed, BUTTON_3_HOURS_ID) {
        Ok(ReminderFrequency::ThreeHours)
    } else {
        Err(UnknownChoice)
    }
}

/// Each button stands for the cadence it was made for.
pub proof fn button_names_its_frequency(frequency: ReminderFrequency)
    ensures
        choice_of(button_id_spec(frequency)) == Some(frequency),
{
    reveal_strlit("button30min");
    reveal_strlit("button1h");
    reveal_strlit("button3h");
    assert("button30min"@.len() == 11);
    assert("button1h"@.len() == 8);
    assert("button1h"@[6] == '1');
    assert("button3h"@[6] == '3');
}

} // verus!
