//! Joining the reminders: the user is asked for a cadence and answers by
//! pressing a button, within a bounded wait.

use vstd::prelude::*;
use crate::buttons::register_buttons::{choice_of, resolve_user_choice};
use crate::database::UserData;
use crate::frequency::ReminderFrequency;
use crate::registry::{insert_new_user_to_remind, inserted, Registry, SubscriberView};

verus! {

/// Seconds a user is given to choose a cadence.
pub const CHOICE_TIMEOUT_SECS: u64 = 180;

/// Where a registration stands.
#[derive(Debug, Clone, Copy, PartialEq, Eq, Structural)]
pub enum Registration {
    /// The question was asked and no answer has come.
    AwaitingChoice,
    /// A cadence was chosen and the user is enrolled.
    Resolved(ReminderFrequency),
    /// The wait ran out; the user is not enrolled.
    TimedOut,
    /// The answer was no button press, or a button that stands for no
    /// cadence; the user is not enrolled.
    Rejected,
}

/// What can happen while a registration awaits its answer.
#[derive(Debug, Clone, PartialEq, Eq)]
pub enum Answer {
    /// A button with this identifier was pressed.
    Button(String),
    /// The user answered by something that is no button.
    Other,
    /// The wait ran out.
    Elapsed,
}

/// Where a registration stands after an answer. Only a registration that
/// awaits its answer moves.
pub open spec fn after(state: Registration, answer: Answer) -> Registration {
    match state {
        Registration::AwaitingChoice => match answer {
            Answer::Button(id) => match choice_of(id@) {
                Some(frequency) => Registration::Resolved(frequency),
                None => Registration::Rejected,
            },
            Answer::Other => Registration::Rejected,
            Answer::Elapsed => Registration::TimedOut,
        },
        _ => state,
    }
}

/// Moves a registration by one answer. A valid button press while the answer
/// is awaited enrols `target` at the current instant; every other answer, and
/// any answer to a registration that is over, leaves the registry as it was.
/// Returns where the registration stands, and the instant of the enrolment if
/// one was made.
pub fn run(registry: &mut Registry, target: &UserData, state: Registration, answer: &Answer) -> (outcome:
    (Registration, Option<i64>))
    requires
        old(registry).wf(),
    ensures
        final(registry).wf(),
        outcome.0 == after(state, *answer),
        match (state, outcome.0) {
            (Registration::AwaitingChoice, Registration::Resolved(frequency)) => {
                &&& outcome.1.is_some()
                &&& final(registry)@ == inserted(
                    old(registry)@,
                    SubscriberView {
                        id: target.id,
                        name: target.name@,
                        frequency,
                        last_notified_at: outcome.1.unwrap(),
                    },
                )
            },
            _ => outcome.1.is_none() && final(registry)@ == old(registry)@,
        },
{
    match state {
        Registration::AwaitingChoice => {},
        _ => {
            return (state, None);
        },
    }
    match answer {
        Answer::Button(id) => match resolve_user_choice(id) {
            Ok(frequency) => {
                let now = insert_new_user_to_remind(registry, target, frequency);
                (Registration::Resolved(frequency), Some(now))
            },
            Err(_) => (Registration::Rejected, None),
        },
        Answer::Other => (Registration::Rejected, None),
        Answer::Elapsed => (Registration::TimedOut, None),
    }
}

/// The first answer settles a registration: whatever comes after it, the
/// registration stays where the first answer left it.
pub proof fn first_answer_settles(first: Answer, later: Answer)
    ensures
        after(Registration::AwaitingChoice, first) != Registration::AwaitingChoice,
        after(after(Registration::AwaitingChoice, first), later) == after(
            Registration::AwaitingChoice,
            first,
        ),
{
}

} // verus!
