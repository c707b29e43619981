use water_reminder::custom_messages::{
    add_custom_message, remove_custom_message, CustomMessages,
};
use water_reminder::database::UserData;
use water_reminder::frequency::ReminderFrequency;
use water_reminder::messages::{
    REMINDER_MESSAGE_ONE_HOUR, REMINDER_MESSAGE_THIRTY_MIN, REMINDER_MESSAGE_THREE_HOURS,
};
use water_reminder::registry::{insert_user_at, remove_user_from_reminders, Registry};
use water_reminder::reminder::{
    dm_user_reminder, due_reminders, is_due, record_reminders, walk_reminders, walk_reminders_at,
    Reminder,
};

fn user(id: u64, name: &str) -> UserData {
    UserData::new(id, name.to_string())
}

#[test]
fn due_only_past_the_end_of_the_interval() {
    let t = 1_700_000_000;
    assert!(!is_due(t, ReminderFrequency::ThirtyMin, t));
    assert!(!is_due(t, ReminderFrequency::ThirtyMin, t + 9));
    assert!(!is_due(t, ReminderFrequency::ThirtyMin, t + 10));
    assert!(is_due(t, ReminderFrequency::ThirtyMin, t + 11));
    assert!(!is_due(t, ReminderFrequency::OneHour, t + 3600));
    assert!(is_due(t, ReminderFrequency::OneHour, t + 3601));
    assert!(!is_due(t, ReminderFrequency::ThreeHours, t + 10800));
    assert!(is_due(t, ReminderFrequency::ThreeHours, t + 10801));
    assert!(is_due(t, ReminderFrequency::ThreeHours, i64::MAX));
}

#[test]
fn due_never_when_the_interval_ends_past_the_last_instant() {
    assert!(!is_due(i64::MAX, ReminderFrequency::ThirtyMin, i64::MAX));
    assert!(!is_due(i64::MAX - 5, ReminderFrequency::OneHour, i64::MAX));
    assert!(is_due(i64::MIN, ReminderFrequency::OneHour, 0));
}

#[test]
fn sweep_of_an_empty_registry_sends_nothing() {
    let mut registry = Registry::new();
    let table = CustomMessages::new();
    let sent = walk_reminders_at(&mut registry, &table, 1_000);
    assert!(sent.is_empty());
    assert_eq!(registry.len(), 0);
}

#[test]
fn sweep_before_and_after_the_interval() {
    let t0 = 1_700_000_000;
    let mut registry = Registry::new();
    let table = CustomMessages::new();
    insert_user_at(&mut registry, &user(42, "ann"), ReminderFrequency::OneHour, t0);

    let sent = walk_reminders_at(&mut registry, &table, t0 + 3599);
    assert!(sent.is_empty());
    assert_eq!(registry.get(42).unwrap().last_notified_at, t0);

    let now = t0 + 3601;
    let sent = walk_reminders_at(&mut registry, &table, now);
    assert_eq!(sent.len(), 1);
    assert_eq!(sent[0].user_id, 42);
    assert_eq!(sent[0].frequency, ReminderFrequency::OneHour);
    assert!(REMINDER_MESSAGE_ONE_HOUR.contains(&sent[0].text.as_str()));
    assert_eq!(registry.get(42).unwrap().last_notified_at, now);

    let sent = walk_reminders_at(&mut registry, &table, now);
    assert!(sent.is_empty());
    assert_eq!(registry.get(42).unwrap().last_notified_at, now);
}

#[test]
fn sweep_sends_the_custom_text_until_it_is_removed() {
    let t0 = 1_700_000_000;
    let mut registry = Registry::new();
    let mut table = CustomMessages::new();
    insert_user_at(&mut registry, &user(9, "kim"), ReminderFrequency::ThirtyMin, t0);
    assert_eq!(add_custom_message(&mut table, 1, "thirty_min", "Hydrate!"), Ok(()));

    let sent = walk_reminders_at(&mut registry, &table, t0 + 11);
    assert_eq!(sent.len(), 1);
    assert_eq!(sent[0].user_id, 9);
    assert_eq!(sent[0].text, "Hydrate!");

    remove_custom_message(&mut table, "thirty_min");
    let sent = walk_reminders_at(&mut registry, &table, t0 + 22);
    assert_eq!(sent.len(), 1);
    assert_ne!(sent[0].text, "Hydrate!");
    assert!(REMINDER_MESSAGE_THIRTY_MIN.contains(&sent[0].text.as_str()));
}

#[test]
fn sweep_reminds_each_due_subscriber_once_in_order() {
    let t0 = 1_000_000;
    let mut registry = Registry::new();
    let mut table = CustomMessages::new();
    insert_user_at(&mut registry, &user(1, "a"), ReminderFrequency::ThirtyMin, t0);
    insert_user_at(&mut registry, &user(2, "same"), ReminderFrequency::OneHour, t0);
    insert_user_at(&mut registry, &user(3, "same"), ReminderFrequency::ThreeHours, t0);
    insert_user_at(&mut registry, &user(4, "d"), ReminderFrequency::OneHour, t0 + 3000);
    insert_user_at(&mut registry, &user(1, "a"), ReminderFrequency::ThirtyMin, t0 + 1);
    assert_eq!(add_custom_message(&mut table, 7, "three_hours", "big glass"), Ok(()));

    let now = t0 + 3601;
    let sent = walk_reminders_at(&mut registry, &table, now);
    let ids: Vec<u64> = sent.iter().map(|r| r.user_id).collect();
    assert_eq!(ids, vec![1, 2]);
    assert!(REMINDER_MESSAGE_THIRTY_MIN.contains(&sent[0].text.as_str()));
    assert!(REMINDER_MESSAGE_ONE_HOUR.contains(&sent[1].text.as_str()));
    assert_eq!(registry.get(1).unwrap().last_notified_at, now);
    assert_eq!(registry.get(2).unwrap().last_notified_at, now);
    assert_eq!(registry.get(3).unwrap().last_notified_at, t0);
    assert_eq!(registry.get(4).unwrap().last_notified_at, t0 + 3000);

    let later = t0 + 10801;
    let sent = walk_reminders_at(&mut registry, &table, later);
    let ids: Vec<u64> = sent.iter().map(|r| r.user_id).collect();
    assert_eq!(ids, vec![1, 2, 3, 4]);
    assert_eq!(sent[2].text, "big glass");
    assert_eq!(sent[2].frequency, ReminderFrequency::ThreeHours);
    for id in 1..=4 {
        assert_eq!(registry.get(id).unwrap().last_notified_at, later);
        assert_eq!(ids.iter().filter(|x| **x == id).count(), 1);
    }
    assert_eq!(registry.get(2).unwrap().name, "same");
    assert_eq!(registry.get(3).unwrap().frequency, ReminderFrequency::ThreeHours);
}

#[test]
fn sweep_skips_a_subscriber_that_left() {
    let mut registry = Registry::new();
    let table = CustomMessages::new();
    insert_user_at(&mut registry, &user(1, "a"), ReminderFrequency::ThirtyMin, 0);
    insert_user_at(&mut registry, &user(2, "b"), ReminderFrequency::ThirtyMin, 0);
    remove_user_from_reminders(&mut registry, 1);
    let sent = walk_reminders_at(&mut registry, &table, 100);
    assert_eq!(sent.len(), 1);
    assert_eq!(sent[0].user_id, 2);
}

#[test]
fn sweep_at_the_current_instant() {
    let mut registry = Registry::new();
    let table = CustomMessages::new();
    insert_user_at(&mut registry, &user(1, "old"), ReminderFrequency::ThreeHours, 0);
    insert_user_at(&mut registry, &user(2, "new"), ReminderFrequency::ThreeHours, i64::MAX - 20_000);
    let (now, sent) = walk_reminders(&mut registry, &table);
    assert!(now > 1_600_000_000);
    assert_eq!(sent.len(), 1);
    assert_eq!(sent[0].user_id, 1);
    assert!(REMINDER_MESSAGE_THREE_HOURS.contains(&sent[0].text.as_str()));
    assert_eq!(registry.get(1).unwrap().last_notified_at, now);
    assert_eq!(registry.get(2).unwrap().last_notified_at, i64::MAX - 20_000);
}

#[test]
fn reminder_for_one_subscriber() {
    let mut table = CustomMessages::new();
    let plain = dm_user_reminder(&table, 3, ReminderFrequency::OneHour);
    assert_eq!(plain.user_id, 3);
    assert_eq!(plain.frequency, ReminderFrequency::OneHour);
    assert!(REMINDER_MESSAGE_ONE_HOUR.contains(&plain.text.as_str()));
    assert_eq!(add_custom_message(&mut table, 1, "one_hour", "drink"), Ok(()));
    let custom = dm_user_reminder(&table, 3, ReminderFrequency::OneHour);
    assert_eq!(custom.text, "drink");
}

#[test]
fn two_halves_of_a_sweep_agree_with_one_sweep() {
    let t0 = 1_000_000;
    let mut whole = Registry::new();
    let mut halves = Registry::new();
    let table = CustomMessages::new();
    for registry in [&mut whole, &mut halves] {
        insert_user_at(registry, &user(1, "a"), ReminderFrequency::ThirtyMin, t0);
        insert_user_at(registry, &user(2, "b"), ReminderFrequency::ThreeHours, t0);
        insert_user_at(registry, &user(3, "c"), ReminderFrequency::OneHour, t0);
    }
    let now = t0 + 3601;
    let sent_whole = walk_reminders_at(&mut whole, &table, now);
    let snapshot = halves.snapshot();
    let sent_halves = due_reminders(&snapshot, &table, now);
    record_reminders(&mut halves, &sent_halves, now);
    let ids_whole: Vec<u64> = sent_whole.iter().map(|r| r.user_id).collect();
    let ids_halves: Vec<u64> = sent_halves.iter().map(|r| r.user_id).collect();
    assert_eq!(ids_whole, vec![1, 3]);
    assert_eq!(ids_halves, ids_whole);
    assert_eq!(halves.snapshot(), whole.snapshot());
}

#[test]
fn recording_passes_over_a_subscriber_that_left_meanwhile() {
    let mut registry = Registry::new();
    let table = CustomMessages::new();
    insert_user_at(&mut registry, &user(1, "a"), ReminderFrequency::ThirtyMin, 0);
    insert_user_at(&mut registry, &user(2, "b"), ReminderFrequency::ThirtyMin, 0);
    let snapshot = registry.snapshot();
    let sent = due_reminders(&snapshot, &table, 50);
    assert_eq!(sent.len(), 2);
    remove_user_from_reminders(&mut registry, 1);
    insert_user_at(&mut registry, &user(3, "c"), ReminderFrequency::ThirtyMin, 40);
    record_reminders(&mut registry, &sent, 50);
    assert_eq!(registry.len(), 2);
    assert!(!registry.contains(1));
    assert_eq!(registry.get(2).unwrap().last_notified_at, 50);
    assert_eq!(registry.get(3).unwrap().last_notified_at, 40);
}

#[test]
fn recording_nothing_changes_nothing() {
    let mut registry = Registry::new();
    insert_user_at(&mut registry, &user(1, "a"), ReminderFrequency::ThirtyMin, 7);
    let none: Vec<Reminder> = Vec::new();
    record_reminders(&mut registry, &none, 50);
    assert_eq!(registry.get(1).unwrap().last_notified_at, 7);
    assert!(due_reminders(&Vec::new(), &CustomMessages::new(), 50).is_empty());
}
