//! Administrator-supplied reminder texts, at most one per message category,
//! and the choice between them and the default pools.

use vstd::prelude::*;
use crate::frequency::ReminderFrequency;
use crate::messages::{
    default_message_at, default_message_at_spec, get_default_message, is_default_message,
};

verus! {

/// A text that replaces the default pool of one category.
#[derive(Debug, Clone, PartialEq, Eq)]
pub struct CustomMessage {
    pub text: String,
    pub author_id: u64,
}

/// A custom message as contracts see it.
pub ghost struct CustomMessageView {
    pub text: Seq<char>,
    pub author_id: u64,
}

impl View for CustomMessage {
    type V = CustomMessageView;

    open spec fn view(&self) -> CustomMessageView {
        CustomMessageView { text: self.text@, author_id: self.author_id }
    }
}

/// Why a custom message was turned down.
#[derive(Debug, Clone, Copy, PartialEq, Eq, Structural)]
pub enum MessageError {
    /// The tag names none of the three message categories.
    UnknownMessageType,
}

/// The custom messages in force, keyed by category.
pub struct CustomMessages {
    thirty_min: Option<CustomMessage>,
    one_hour: Option<CustomMessage>,
    three_hours: Option<CustomMessage>,
}

/// One line of the listing: category tag, text, author.
pub open spec fn listed_entry(
    table: Map<ReminderFrequency, CustomMessageView>,
    freq: ReminderFrequency,
) -> Seq<(Seq<char>, Seq<char>, u64)> {
    if table.dom().contains(freq) {
        seq![(freq.message_type_spec(), table[freq].text, table[freq].author_id)]
    } else {
        Seq::empty()
    }
}

/// The listing of a table: one line per custom message, ordered by category
/// tag.
pub open spec fn listed(table: Map<ReminderFrequency, CustomMessageView>) -> Seq<
    (Seq<char>, Seq<char>, u64),
> {
    listed_entry(table, ReminderFrequency::OneHour) + listed_entry(
        table,
        ReminderFrequency::ThirtyMin,
    ) + listed_entry(table, ReminderFrequency::ThreeHours)
}

/// The lines of a listing as contracts see them.
pub open spec fn line_views(lines: Seq<(String, String, u64)>) -> Seq<(Seq<char>, Seq<char>, u64)> {
    Seq::new(lines.len(), |i: int| (lines[i].0@, lines[i].1@, lines[i].2))
}

/// The table after a message is added under a tag: written over the one of
/// its category, or left alone where the tag names no category.
pub open spec fn with_message(
    table: Map<ReminderFrequency, CustomMessageView>,
    message_type: Seq<char>,
    message: CustomMessageView,
) -> Map<ReminderFrequency, CustomMessageView> {
    match ReminderFrequency::of_message_type(message_type) {
        Some(freq) => table.insert(freq, message),
        None => table,
    }
}

/// The table after the message under a tag is removed.
pub open spec fn without_message(
    table: Map<ReminderFrequency, CustomMessageView>,
    message_type: Seq<char>,
) -> Map<ReminderFrequency, CustomMessageView> {
    match ReminderFrequency::of_message_type(message_type) {
        Some(freq) => table.remove(freq),
        None => table,
    }
}

/// The custom text stored under a tag, if the tag names a category that has
/// one.
pub open spec fn text_under(
    table: Map<ReminderFrequency, CustomMessageView>,
    message_type: Seq<char>,
) -> Option<Seq<char>> {
    match ReminderFrequency::of_message_type(message_type) {
        Some(freq) => if table.dom().contains(freq) {
            Some(table[freq].text)
        } else {
            None
        },
        None => None,
    }
}

/// The table after the first `n` lines of a listing are added, one after the
/// other. A line whose tag names no category adds nothing.
pub open spec fn with_lines(
    table: Map<ReminderFrequency, CustomMessageView>,
    lines: Seq<(Seq<char>, Seq<char>, u64)>,
    n: nat,
) -> Map<ReminderFrequency, CustomMessageView>
    decreases n,
{
    if n == 0 {
        table
    } else {
        with_message(
            with_lines(table, lines, (n - 1) as nat),
            lines[n - 1].0,
            CustomMessageView { text: lines[n - 1].1, author_id: lines[n - 1].2 },
        )
    }
}

/// What `resolve_with` returns: the custom text where there is one, else the
/// default at `index`.
pub open spec fn resolved_with(
    custom: Option<Seq<char>>,
    freq: ReminderFrequency,
    index: int,
) -> Seq<char> {
    match custom {
        Some(text) => text,
        None => default_message_at_spec(freq, index),
    }
}

/// Whether `text` may be sent for a cadence: the custom text of its category
/// where the table holds one, else a default text of the cadence.
pub open spec fn is_resolved(
    table: Map<ReminderFrequency, CustomMessageView>,
    freq: ReminderFrequency,
    text: Seq<char>,
) -> bool {
    if table.dom().contains(freq) {
        text == table[freq].text
    } else {
        is_default_message(freq, text)
    }
}

impl View for CustomMessages {
    type V = Map<ReminderFrequency, CustomMessageView>;

    closed spec fn view(&self) -> Map<ReminderFrequency, CustomMessageView> {
        Map::new(
            |freq: ReminderFrequency| self.slot(freq).is_some(),
            |freq: ReminderFrequency| self.slot(freq).unwrap()@,
        )
    }
}

impl CustomMessages {
    spec fn slot(&self, freq: ReminderFrequency) -> Option<CustomMessage> {
        match freq {
            ReminderFrequency::ThirtyMin => self.thirty_min,
            ReminderFrequency::OneHour => self.one_hour,
            ReminderFrequency::ThreeHours => self.three_hours,
        }
    }

    /// A table without custom messages.
    pub fn new() -> (table: CustomMessages)
        ensures
            table@ == Map::<ReminderFrequency, CustomMessageView>::empty(),
    {
        let table = CustomMessages { thirty_min: None, one_hour: None, three_hours: None };
        assert(table@ =~= Map::<ReminderFrequency, CustomMessageView>::empty());
        table
    }

    /// Writes the custom message of a category over the one that was there.
    pub fn set(&mut self, freq: ReminderFrequency, message: CustomMessage)
        ensures
            final(self)@ == old(self)@.insert(freq, message@),
    {
        let ghost before = self@;
        match freq {
            ReminderFrequency::ThirtyMin => {
                self.thirty_min = Some(message);
            },
            ReminderFrequency::OneHour => {
                self.one_hour = Some(message);
            },
            ReminderFrequency::ThreeHours => {
                self.three_hours = Some(message);
            },
        }
        assert(self@ =~= before.insert(freq, message@));
    }

    /// Removes the custom message of a category, if there is one.
    pub fn clear(&mut self, freq: ReminderFrequency)
        ensures
            final(self)@ == old(self)@.remove(freq),
    {
        let ghost before = self@;
        match freq {
            ReminderFrequency::ThirtyMin => {
                self.thirty_min = None;
            },
            ReminderFrequency::OneHour => {
                self.one_hour = None;
            },
            ReminderFrequency::ThreeHours => {
                self.three_hours = None;
            },
        }
        assert(self@ =~= before.remove(freq));
    }

    /// The custom message of a category, if there is one.
    pub fn message_for(&self, freq: ReminderFrequency) -> (found: Option<&CustomMessage>)
        ensures
            match found {
                Some(message) => self@.dom().contains(freq) && self@[freq] == message@,
                None => !self@.dom().contains(freq),
            },
    {
        match freq {
            ReminderFrequency::ThirtyMin => self.thirty_min.as_ref(),
            ReminderFrequency::OneHour => self.one_hour.as_ref(),
            ReminderFrequency::ThreeHours => self.three_hours.as_ref(),
        }
    }

    /// A copy of the custom text of a category, if there is one.
    pub fn text_for(&self, freq: ReminderFrequency) -> (found: Option<String>)
        ensures
            match found {
                Some(text) => self@.dom().contains(freq) && self@[freq].text == text@,
                None => !self@.dom().contains(freq),
            },
    {
        match self.message_for(freq) {
            Some(message) => Some(message.text.clone()),
            None => None,
        }
    }
}

/// Adds a custom message under a category tag, over the one that was there.
/// A tag that names no category is turned down and nothing changes.
pub fn add_custom_message(
    table: &mut CustomMessages,
    user_id: u64,
    message_type: &str,
    message: &str,
) -> (outcome: Result<(), MessageError>)
    ensures
        outcome.is_ok() == ReminderFrequency::of_message_type(message_type@).is_some(),
        outcome.is_err() ==> outcome == Err::<(), MessageError>(MessageError::UnknownMessageType),
        final(table)@ == with_message(
            old(table)@,
            message_type@,
            CustomMessageView { text: message@, author_id: user_id },
        ),
{
    match ReminderFrequency::from_message_type(message_type) {
        Some(freq) => {
            table.set(freq, CustomMessage { text: message.to_owned(), author_id: user_id });
            Ok(())
        },
        None => Err(MessageError::UnknownMessageType),
    }
}

/// The custom text stored under a category tag, if any.
pub fn get_custom_message(table: &CustomMessages, message_type: &str) -> (found: Option<String>)
    ensures
        match found {
            Some(text) => text_under(table@, message_type@) == Some(text@),
            None => text_under(table@, message_type@).is_none(),
        },
{
    match ReminderFrequency::from_message_type(message_type) {
        Some(freq) => table.text_for(freq),
        None => None,
    }
}

/// Removes the custom message under a category tag. Nothing changes if there
/// is none, or if the tag names no category.
pub fn remove_custom_message(table: &mut CustomMessages, message_type: &str)
    ensures
        final(table)@ == without_message(old(table)@, message_type@),
{
    match ReminderFrequency::from_message_type(message_type) {
        Some(freq) => {
            table.clear(freq);
        },
        None => {},
    }
}

/// Every custom message as category tag, text and author, ordered by tag.
pub fn list_custom_messages(table: &CustomMessages) -> (lines: Vec<(String, String, u64)>)
    ensures
        line_views(lines@) == listed(table@),
{
    let mut lines: Vec<(String, String, u64)> = Vec::new();
    assert(line_views(lines@) =~= Seq::empty());
    push_line(table, ReminderFrequency::OneHour, &mut lines);
    push_line(table, ReminderFrequency::ThirtyMin, &mut lines);
    push_line(table, ReminderFrequency::ThreeHours, &mut lines);
    lines
}

fn push_line(table: &CustomMessages, freq: ReminderFrequency, lines: &mut Vec<(String, String, u64)>)
    ensures
        line_views(final(lines)@) == line_views(old(lines)@) + listed_entry(table@, freq),
{
    let ghost before = line_views(lines@);
    match table.message_for(freq) {
        Some(message) => {
            lines.push((freq.message_type().to_owned(), message.text.clone(), message.author_id));
            assert(line_views(lines@) =~= before + listed_entry(table@, freq));
        },
        None => {
            assert(line_views(lines@) =~= before + listed_entry(table@, freq));
        },
    }
}

/// Fills the table from stored lines of category tag, text and author, each
/// added in turn. A line whose tag names no category is passed over.
pub fn load_custom_messages(table: &mut CustomMessages, lines: &Vec<(String, String, u64)>)
    ensures
        final(table)@ == with_lines(old(table)@, line_views(lines@), lines@.len()),
{
    let ghost before = table@;
    let mut i: usize = 0;
    while i < lines.len()
        invariant
            i <= lines.len(),
            table@ == with_lines(before, line_views(lines@), i as nat),
        decreases lines.len() - i,
    {
        let line = &lines[i];
        let _ = add_custom_message(table, line.2, line.0.as_str(), line.1.as_str());
        i += 1;
    }
}

/// The custom messages of a table, listed and loaded from the listing into
/// an empty table, are the table again.
pub proof fn reload_restores_custom_messages(table: Map<ReminderFrequency, CustomMessageView>)
    ensures
        with_lines(Map::empty(), listed(table), listed(table).len()) == table,
{
    let lines = listed(table);
    let loaded = with_lines(Map::empty(), lines, lines.len());
    ReminderFrequency::OneHour.message_type_round_trip();
    ReminderFrequency::ThirtyMin.message_type_round_trip();
    ReminderFrequency::ThreeHours.message_type_round_trip();
    reveal_with_fuel(with_lines, 4);
    assert(lines.len() <= 3);
    assert(loaded =~= table);
}

/// The text to send for a cadence, given the custom text of its category, if
/// any, and a position in its default pool.
pub fn resolve_with(custom: Option<String>, freq: ReminderFrequency, index: usize) -> (text: String)
    ensures
        text@ == resolved_with(
            match custom {
                Some(stored) => Some(stored@),
                None => None,
            },
            freq,
            index as int,
        ),
{
    match custom {
        Some(stored) => stored,
        None => default_message_at(freq, index).to_owned(),
    }
}

/// The text to send for a cadence: the custom text of its category, word for
/// word, where the table holds one; else a default text drawn at random.
pub fn resolve(table: &CustomMessages, freq: ReminderFrequency) -> (text: String)
    ensures
        is_resolved(table@, freq, text@),
{
    match table.text_for(freq) {
        Some(stored) => stored,
        None => get_default_message(freq).to_owned(),
    }
}

} // verus!
