//! The three reminder cadences and the names they go by: in storage, as a
//! message category, and in front of a user.

use vstd::prelude::*;
use crate::text::same_text;

verus! {

/// One of the three fixed cadences at which a subscriber is reminded.
#[derive(Debug, Clone, Copy, PartialEq, Eq, Structural)]
pub enum ReminderFrequency {
    ThirtyMin,
    OneHour,
    ThreeHours,
}

/// What `display_message_type` shows for a message category.
pub open spec fn message_type_display(msg_type: Seq<char>) -> Seq<char> {
    if msg_type == "thirty_min"@ {
        "30 minutes"@
    } else if msg_type == "one_hour"@ {
        "1 heure"@
    } else if msg_type == "three_hours"@ {
        "3 heures"@
    } else {
        "unknown"@
    }
}

/// The human-readable name of a message category; `"unknown"` for a tag that
/// names none.
pub fn display_message_type(msg_type: &str) -> (shown: &'static str)
    ensures
        shown@ == message_type_display(msg_type@),
{
    if same_text(msg_type, "thirty_min") {
        "30 minutes"
    } else if same_text(msg_type, "one_hour") {
        "1 heure"
    } else if same_text(msg_type, "three_hours") {
        "3 heures"
    } else {
        "unknown"
    }
}

impl ReminderFrequency {
    /// Seconds between two reminders at this cadence: ten for the shortest,
    /// then one hour and three hours.
    pub open spec fn interval(self) -> int {
        match self {
            ReminderFrequency::ThirtyMin => 10,
            ReminderFrequency::OneHour => 3600,
            ReminderFrequency::ThreeHours => 10800,
        }
    }

    /// The tag under which this cadence is stored.
    pub open spec fn storage_tag_spec(self) -> Seq<char> {
        match self {
            ReminderFrequency::ThirtyMin => "ThirtyMin"@,
            ReminderFrequency::OneHour => "OneHour"@,
            ReminderFrequency::ThreeHours => "ThreeHours"@,
        }
    }

    /// The message category aligned with this cadence.
    pub open spec fn message_type_spec(self) -> Seq<char> {
        match self {
            ReminderFrequency::ThirtyMin => "thirty_min"@,
            ReminderFrequency::OneHour => "one_hour"@,
            ReminderFrequency::ThreeHours => "three_hours"@,
        }
    }

    /// The cadence as shown to a subscriber.
    pub open spec fn label_spec(self) -> Seq<char> {
        match self {
            ReminderFrequency::ThirtyMin => "30 min"@,
            ReminderFrequency::OneHour => "1 heure"@,
            ReminderFrequency::ThreeHours => "3 heures"@,
        }
    }

    /// The cadence a stored tag names, if it names one.
    pub open spec fn of_storage_tag(tag: Seq<char>) -> Option<ReminderFrequency> {
        if tag == "ThirtyMin"@ {
            Some(ReminderFrequency::ThirtyMin)
        } else if tag == "OneHour"@ {
            Some(ReminderFrequency::OneHour)
        } else if tag == "ThreeHours"@ {
            Some(ReminderFrequency::ThreeHours)
        } else {
            None
        }
    }

    /// The cadence a message category belongs to, if the tag names a category.
    pub open spec fn of_message_type(tag: Seq<char>) -> Option<ReminderFrequency> {
        if tag == "thirty_min"@ {
            Some(ReminderFrequency::ThirtyMin)
        } else if tag == "one_hour"@ {
            Some(ReminderFrequency::OneHour)
        } else if tag == "three_hours"@ {
            Some(ReminderFrequency::ThreeHours)
        } else {
            None
        }
    }

    /// Seconds between two reminders at this cadence.
    pub fn interval_seconds(self) -> (secs: i64)
        ensures
            secs == self.interval(),
    {
        match self {
            ReminderFrequency::ThirtyMin => 10,
            ReminderFrequency::OneHour => 3600,
            ReminderFrequency::ThreeHours => 10800,
        }
    }

    /// The tag under which this cadence is stored.
    pub fn storage_tag(self) -> (tag: &'static str)
        ensures
            tag@ == self.storage_tag_spec(),
    {
        match self {
            ReminderFrequency::ThirtyMin => "ThirtyMin",
            ReminderFrequency::OneHour => "OneHour",
            ReminderFrequency::ThreeHours => "ThreeHours",
        }
    }

    /// Reads a stored tag back; `None` for a tag that names no cadence.
    pub fn from_storage_tag(tag: &str) -> (found: Option<ReminderFrequency>)
        ensures
            found == Self::of_storage_tag(tag@),
    {
        if same_text(tag, "ThirtyMin") {
            Some(ReminderFrequency::ThirtyMin)
        } else if same_text(tag, "OneHour") {
            Some(ReminderFrequency::OneHour)
        } else if same_text(tag, "ThreeHours") {
            Some(ReminderFrequency::ThreeHours)
        } else {
            None
        }
    }

    /// The message category aligned with this cadence.
    pub fn message_type(self) -> (tag: &'static str)
        ensures
            tag@ == self.message_type_spec(),
    {
        match self {
            ReminderFrequency::ThirtyMin => "thirty_min",
            ReminderFrequency::OneHour => "one_hour",
            ReminderFrequency::ThreeHours => "three_hours",
        }
    }

    /// Reads a message category; `None` for a tag that names none of the three.
    pub fn from_message_type(tag: &str) -> (found: Option<ReminderFrequency>)
        ensures
            found == Self::of_message_type(tag@),
    {
        if same_text(tag, "thirty_min") {
            Some(ReminderFrequency::ThirtyMin)
        } else if same_text(tag, "one_hour") {
            Some(ReminderFrequency::OneHour)
        } else if same_text(tag, "three_hours") {
            Some(ReminderFrequency::ThreeHours)
        } else {
            None
        }
    }

    /// The cadence as shown to a subscriber.
    pub fn label(self) -> (shown: &'static str)
        ensures
            shown@ == self.label_spec(),
    {
        match self {
            ReminderFrequency::ThirtyMin => "30 min",
            ReminderFrequency::OneHour => "1 heure",
            ReminderFrequency::ThreeHours => "3 heures",
        }
    }

    /// A stored tag written by `storage_tag` reads back as the same cadence.
    pub proof fn storage_tag_round_trip(self)
        ensures
            Self::of_storage_tag(self.storage_tag_spec()) == Some(self),
    {
        reveal_strlit("ThirtyMin");
        reveal_strlit("OneHour");
        reveal_strlit("ThreeHours");
        assert("ThirtyMin"@.len() == 9);
        assert("OneHour"@.len() == 7);
        assert("ThreeHours"@.len() == 10);
    }

    /// A message category written by `message_type` reads back as the same
    /// cadence.
    pub proof fn message_type_round_trip(self)
        ensures
            Self::of_message_type(self.message_type_spec()) == Some(self),
    {
        reveal_strlit("thirty_min");
        reveal_strlit("one_hour");
        reveal_strlit("three_hours");
        assert("thirty_min"@.len() == 10);
        assert("one_hour"@.len() == 8);
        assert("three_hours"@.len() == 11);
    }
}

} // verus!
