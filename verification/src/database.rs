//! The stored form of subscribers: one row of text and integer columns per
//! subscriber, how a row is written and how it is read back. A row that
//! cannot be read in full is not dropped: the cadence falls back to one hour
//! and the time of the last reminder to the instant of loading.

use vstd::prelude::*;
use crate::clock::{
    format_timestamp, parse_timestamp, parsed_timestamp, timestamp_or, timestamp_or_spec,
    timestamp_text,
};
use crate::frequency::ReminderFrequency;
use crate::registry::{
    distinct_ids, has_id, inserted_all, subscriber_views, Subscriber, SubscriberView,
};

verus! {

/// A user as the store knows it: its identifier and its display name.
#[derive(Debug, Clone, PartialEq, Eq, Hash)]
pub struct UserData {
    pub id: u64,
    pub name: String,
}

impl UserData {
    /// A user with this identifier and display name.
    pub fn new(id: u64, name: String) -> (user: Self)
        ensures
            user.id == id,
            user.name == name,
    {
        Self { id, name }
    }
}

/// One stored subscriber: the columns that are written and read back.
#[derive(Debug, Clone, PartialEq, Eq)]
pub struct UserRow {
    pub user_id: i64,
    pub username: String,
    pub reminder_frequency: String,
    pub last_reminded: String,
}

/// A stored subscriber as contracts see it.
pub ghost struct UserRowView {
    pub user_id: i64,
    pub username: Seq<char>,
    pub reminder_frequency: Seq<char>,
    pub last_reminded: Seq<char>,
}

impl View for UserRow {
    type V = UserRowView;

    open spec fn view(&self) -> UserRowView {
        UserRowView {
            user_id: self.user_id,
            username: self.username@,
            reminder_frequency: self.reminder_frequency@,
            last_reminded: self.last_reminded@,
        }
    }
}

/// An identifier as the store holds it: the same sixty-four bits, read as a
/// signed integer.
pub open spec fn stored_id(id: u64) -> i64 {
    id as i64
}

/// An identifier as read back from the store.
pub open spec fn loaded_id(stored: i64) -> u64 {
    stored as u64
}

/// The cadence of a stored row: the one its tag names, or one hour where the
/// tag names none.
pub open spec fn loaded_frequency(tag: Seq<char>) -> ReminderFrequency {
    match ReminderFrequency::of_storage_tag(tag) {
        Some(frequency) => frequency,
        None => ReminderFrequency::OneHour,
    }
}

/// The row written for a subscriber whose last reminder has the text
/// `last_reminded`.
pub open spec fn stored_user(
    id: u64,
    name: Seq<char>,
    frequency: ReminderFrequency,
    last_reminded: Seq<char>,
) -> UserRowView {
    UserRowView {
        user_id: stored_id(id),
        username: name,
        reminder_frequency: frequency.storage_tag_spec(),
        last_reminded,
    }
}

/// The subscriber read from a row whose time column was read as `parsed`,
/// when loading at `now`.
pub open spec fn loaded_user(row: UserRowView, parsed: Option<i64>, now: i64) -> SubscriberView {
    SubscriberView {
        id: loaded_id(row.user_id),
        name: row.username,
        frequency: loaded_frequency(row.reminder_frequency),
        last_notified_at: timestamp_or_spec(parsed, now),
    }
}

/// The rows of a vector as contracts see them.
pub open spec fn row_views(rows: Seq<UserRow>) -> Seq<UserRowView> {
    Seq::new(rows.len(), |i: int| rows[i]@)
}

/// The subscribers read from stored rows when loading at `now`, row by row.
pub open spec fn loaded_users(rows: Seq<UserRowView>, now: i64) -> Seq<SubscriberView> {
    Seq::new(
        rows.len(),
        |i: int| loaded_user(rows[i], parsed_timestamp(rows[i].last_reminded), now),
    )
}

/// An identifier as the store holds it.
pub fn to_stored_id(id: u64) -> (stored: i64)
    ensures
        stored == stored_id(id),
{
    id as i64
}

/// An identifier as read back from the store.
pub fn from_stored_id(stored: i64) -> (id: u64)
    ensures
        id == loaded_id(stored),
{
    stored as u64
}

/// The row to write for a subscriber, given the text of its last reminder.
pub fn user_row(user: &UserData, frequency: ReminderFrequency, last_reminded: String) -> (row: UserRow)
    ensures
        row@ == stored_user(user.id, user.name@, frequency, last_reminded@),
{
    UserRow {
        user_id: to_stored_id(user.id),
        username: user.name.clone(),
        reminder_frequency: frequency.storage_tag().to_owned(),
        last_reminded,
    }
}

/// The row to write for a subscriber last reminded at `last_reminded`; `None`
/// exactly where that instant has no stored text.
pub fn save_user_reminder(user: &UserData, frequency: ReminderFrequency, last_reminded: i64) -> (row:
    Option<UserRow>)
    ensures
        match row {
            Some(written) => timestamp_text(last_reminded).is_some() && written@ == stored_user(
                user.id,
                user.name@,
                frequency,
                timestamp_text(last_reminded).unwrap(),
            ),
            None => timestamp_text(last_reminded).is_none(),
        },
{
    match format_timestamp(last_reminded) {
        Some(text) => Some(user_row(user, frequency, text)),
        None => None,
    }
}

/// What to write when a subscriber was reminded at `last_reminded`: the new
/// text of the time column and the stored identifier of the row; `None`
/// exactly where that instant has no stored text.
pub fn update_user_last_reminded(user_id: u64, last_reminded: i64) -> (change: Option<(String, i64)>)
    ensures
        match change {
            Some(written) => timestamp_text(last_reminded) == Some(written.0@) && written.1
                == stored_id(user_id),
            None => timestamp_text(last_reminded).is_none(),
        },
{
    match format_timestamp(last_reminded) {
        Some(text) => Some((text, to_stored_id(user_id))),
        None => None,
    }
}

/// The cadence of a stored row.
pub fn frequency_or_default(tag: &str) -> (frequency: ReminderFrequency)
    ensures
        frequency == loaded_frequency(tag@),
{
    match ReminderFrequency::from_storage_tag(tag) {
        Some(frequency) => frequency,
        None => ReminderFrequency::OneHour,
    }
}

/// The subscriber read from a row whose time column was read as `parsed`,
/// when loading at `now`.
pub fn decode_user(row: &UserRow, parsed: Option<i64>, now: i64) -> (sub: Subscriber)
    ensures
        sub@ == loaded_user(row@, parsed, now),
{
    Subscriber {
        id: from_stored_id(row.user_id),
        name: row.username.clone(),
        frequency: frequency_or_default(row.reminder_frequency.as_str()),
        last_notified_at: timestamp_or(parsed, now),
    }
}

/// The subscriber read from a stored row when loading at `now`.
pub fn load_user(row: &UserRow, now: i64) -> (sub: Subscriber)
    ensures
        sub@ == loaded_user(row@, parsed_timestamp(row.last_reminded@), now),
{
    let parsed = parse_timestamp(row.last_reminded.as_str());
    decode_user(row, parsed, now)
}

/// The subscribers read from stored rows when loading at `now`: one for each
/// row, in the order of the rows.
pub fn load_user_reminders(rows: &Vec<UserRow>, now: i64) -> (subs: Vec<Subscriber>)
    ensures
        subscriber_views(subs@) == loaded_users(row_views(rows@), now),
{
    let mut subs: Vec<Subscriber> = Vec::new();
    let mut i: usize = 0;
    while i < rows.len()
        invariant
            i <= rows.len(),
            subs@.len() == i,
            forall|k: int| 0 <= k < i ==> subs@[k]@ == loaded_users(row_views(rows@), now)[k],
        decreases rows.len() - i,
    {
        subs.push(load_user(&rows[i], now));
        i += 1;
    }
    assert(subscriber_views(subs@) =~= loaded_users(row_views(rows@), now));
    subs
}

/// An identifier comes back from the store as it went in.
pub proof fn stored_id_round_trip(id: u64)
    ensures
        loaded_id(stored_id(id)) == id,
{
    assert((id as i64) as u64 == id) by (bit_vector);
}

/// A subscriber that is written and read back keeps its identifier, its name
/// and its cadence, whatever becomes of the time column.
pub proof fn stored_user_round_trip(
    sub: SubscriberView,
    last_reminded: Seq<char>,
    parsed: Option<i64>,
    now: i64,
)
    ensures
        loaded_user(stored_user(sub.id, sub.name, sub.frequency, last_reminded), parsed, now)
            == (SubscriberView { last_notified_at: timestamp_or_spec(parsed, now), ..sub }),
{
    stored_id_round_trip(sub.id);
    sub.frequency.storage_tag_round_trip();
}

/// Written in turn into an empty registry, subscribers with distinct
/// identifiers stand in it as they came.
proof fn inserted_all_of_distinct(new: Seq<SubscriberView>, n: nat)
    requires
        distinct_ids(new),
        n <= new.len(),
    ensures
        inserted_all(Seq::empty(), new, n) == new.take(n as int),
    decreases n,
{
    if n == 0 {
        assert(new.take(0) =~= Seq::<SubscriberView>::empty());
    } else {
        inserted_all_of_distinct(new, (n - 1) as nat);
        let sofar = new.take(n - 1);
        assert(!has_id(sofar, new[n - 1].id)) by {
            if has_id(sofar, new[n - 1].id) {
                let i = choose|i: int| 0 <= i < sofar.len() && sofar[i].id == new[n - 1].id;
                assert(sofar[i] == new[i]);
            }
        }
        assert(sofar.push(new[n - 1]) =~= new.take(n as int));
    }
}

/// Subscribers that are written to the store and loaded from it into an
/// empty registry are enrolled again, each under its identifier, its name and
/// its cadence, in the order in which they stood. The time of the last
/// reminder is what its stored text reads as, or the instant of loading where
/// the text cannot be read.
pub proof fn reload_restores_subscribers(
    subs: Seq<SubscriberView>,
    rows: Seq<UserRowView>,
    now: i64,
)
    requires
        distinct_ids(subs),
        rows.len() == subs.len(),
        forall|i: int|
            0 <= i < subs.len() ==> rows[i] == stored_user(
                subs[i].id,
                subs[i].name,
                subs[i].frequency,
                rows[i].last_reminded,
            ),
    ensures
        inserted_all(Seq::empty(), loaded_users(rows, now), rows.len()).len() == subs.len(),
        forall|i: int|
            0 <= i < subs.len() ==> inserted_all(
                Seq::empty(),
                loaded_users(rows, now),
                rows.len(),
            )[i] == (SubscriberView {
                last_notified_at: timestamp_or_spec(parsed_timestamp(rows[i].last_reminded), now),
                ..subs[i]
            }),
{
    let new = loaded_users(rows, now);
    assert forall|i: int| 0 <= i < subs.len() implies new[i] == (SubscriberView {
        last_notified_at: timestamp_or_spec(parsed_timestamp(rows[i].last_reminded), now),
        ..subs[i]
    }) by {
        stored_user_round_trip(
            subs[i],
            rows[i].last_reminded,
            parsed_timestamp(rows[i].last_reminded),
            now,
        );
    }
    assert(distinct_ids(new)) by {
        assert forall|a: int, b: int|
            0 <= a < new.len() && 0 <= b < new.len() && a != b implies new[a].id
            != new[b].id by {
            assert(new[a].id == subs[a].id);
            assert(new[b].id == subs[b].id);
        }
    }
    inserted_all_of_distinct(new, new.len());
    assert(new.take(new.len() as int) =~= new);
}

} // verus!
