//! Adding a custom message.

use vstd::prelude::*;
use crate::commands::CommandError;
use crate::custom_messages::{CustomMessage, CustomMessageView, CustomMessages};
use crate::frequency::ReminderFrequency;

verus! {

/// What the command does to the table and answers, by what it was given.
pub open spec fn outcome_of(
    msg_type: Option<Seq<char>>,
    message: Option<Seq<char>>,
) -> Result<ReminderFrequency, CommandError> {
    match (msg_type, message) {
        (None, _) => Err(CommandError::MissingType),
        (Some(_), None) => Err(CommandError::MissingMessage),
        (Some(tag), Some(_)) => match ReminderFrequency::of_message_type(tag) {
            Some(frequency) => Ok(frequency),
            None => Err(CommandError::InvalidType),
        },
    }
}

/// Adds a custom message by `author_id`. The category and the text must both
/// be given and the category must be one of the three; otherwise the command
/// is turned down and the table stays as it was. On success the message
/// stands in place of any earlier one of its category, which is returned.
pub fn run(
    table: &mut CustomMessages,
    author_id: u64,
    msg_type: Option<&str>,
    message: Option<&str>,
) -> (outcome: Result<ReminderFrequency, CommandError>)
    ensures
        outcome == outcome_of(
            match msg_type {
                Some(tag) => Some(tag@),
                None => None,
            },
            match message {
                Some(text) => Some(text@),
                None => None,
            },
        ),
        match outcome {
            Ok(frequency) => message.is_some() && final(table)@ == old(table)@.insert(
                frequency,
                CustomMessageView { text: message.unwrap()@, author_id },
            ),
            Err(_) => final(table)@ == old(table)@,
        },
{
    let tag = match msg_type {
        Some(tag) => tag,
        None => {
            return Err(CommandError::MissingType);
        },
    };
    let text = match message {
        Some(text) => text,
        None => {
            return Err(CommandError::MissingMessage);
        },
    };
    match ReminderFrequency::from_message_type(tag) {
        Some(frequency) => {
            table.set(frequency, CustomMessage { text: text.to_owned(), author_id });
            Ok(frequency)
        },
        None => Err(CommandError::InvalidType),
    }
}

} // verus!
