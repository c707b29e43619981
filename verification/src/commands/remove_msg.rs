//! Removing a custom message.

use vstd::prelude::*;
use crate::commands::CommandError;
use crate::custom_messages::CustomMessages;
use crate::frequency::ReminderFrequency;

verus! {

/// What the command answers, by what it was given.
pub open spec fn outcome_of(msg_type: Option<Seq<char>>) -> Result<ReminderFrequency, CommandError> {
    match msg_type {
        None => Err(CommandError::MissingType),
        Some(tag) => match ReminderFrequency::of_message_type(tag) {
            Some(frequency) => Ok(frequency),
            None => Err(CommandError::InvalidType),
        },
    }
}

/// Removes the custom message of a category. The category must be given and
/// be one of the three; otherwise the command is turned down and the table
/// stays as it was. Removing where there is no custom message succeeds and
/// changes nothing.
pub fn run(table: &mut CustomMessages, msg_type: Option<&str>) -> (outcome: Result<
    ReminderFrequency,
    CommandError,
>)
    ensures
        outcome == outcome_of(
            match msg_type {
                Some(tag) => Some(tag@),
                None => None,
            },
        ),
        match outcome {
            Ok(frequency) => final(table)@ == old(table)@.remove(frequency),
            Err(_) => final(table)@ == old(table)@,
        },
{
    let tag = match msg_type {
        Some(tag) => tag,
        None => {
            return Err(CommandError::MissingType);
        },
    };
    match ReminderFrequency::from_message_type(tag) {
        Some(frequency) => {
            table.clear(frequency);
            Ok(frequency)
        },
        None => Err(CommandError::InvalidType),
    }
}

} // verus!
