use water_reminder::clock::current_timestamp;
use water_reminder::database::UserData;
use water_reminder::frequency::ReminderFrequency;
use water_reminder::registry::{
    copy_of, insert_new_user_to_remind, insert_user_at, load_users_from_database,
    lookup_active_reminders_count, remove_user_from_reminders, update_user_to_reminder, Registry,
    Subscriber,
};
use water_reminder::database::UserRow;

fn user(id: u64, name: &str) -> UserData {
    UserData::new(id, name.to_string())
}

#[test]
fn new_registry_is_empty() {
    let registry = Registry::new();
    assert_eq!(lookup_active_reminders_count(&registry), 0);
    assert_eq!(registry.len(), 0);
    assert!(registry.snapshot().is_empty());
    assert!(!registry.contains(1));
    assert_eq!(registry.get(1), None);
}

#[test]
fn user_data_new_keeps_its_fields() {
    let u = UserData::new(7, "zoe".to_string());
    assert_eq!(u.id, 7);
    assert_eq!(u.name, "zoe");
}

#[test]
fn insert_enrols_with_the_given_instant() {
    let mut registry = Registry::new();
    insert_user_at(&mut registry, &user(42, "ann"), ReminderFrequency::OneHour, 1_700_000_000);
    assert_eq!(lookup_active_reminders_count(&registry), 1);
    assert!(registry.contains(42));
    assert_eq!(
        registry.get(42),
        Some(Subscriber {
            id: 42,
            name: "ann".to_string(),
            frequency: ReminderFrequency::OneHour,
            last_notified_at: 1_700_000_000,
        })
    );
}

#[test]
fn insert_now_stamps_the_registration_instant() {
    let mut registry = Registry::new();
    let before = current_timestamp();
    let stamped =
        insert_new_user_to_remind(&mut registry, &user(5, "bob"), ReminderFrequency::ThirtyMin);
    let after = current_timestamp();
    assert!(before <= stamped && stamped <= after);
    assert!(after - before <= 1);
    assert!(stamped > 1_600_000_000);
    let sub = registry.get(5).unwrap();
    assert_eq!(sub.last_notified_at, stamped);
    assert_eq!(sub.frequency, ReminderFrequency::ThirtyMin);
    assert_eq!(lookup_active_reminders_count(&registry), 1);
}

#[test]
fn insert_twice_replaces() {
    let mut registry = Registry::new();
    insert_user_at(&mut registry, &user(1, "a"), ReminderFrequency::ThirtyMin, 100);
    insert_user_at(&mut registry, &user(2, "b"), ReminderFrequency::OneHour, 200);
    assert_eq!(lookup_active_reminders_count(&registry), 2);
    insert_user_at(&mut registry, &user(1, "a2"), ReminderFrequency::ThreeHours, 300);
    assert_eq!(lookup_active_reminders_count(&registry), 2);
    let sub = registry.get(1).unwrap();
    assert_eq!(sub.name, "a2");
    assert_eq!(sub.frequency, ReminderFrequency::ThreeHours);
    assert_eq!(sub.last_notified_at, 300);
    let ids: Vec<u64> = registry.snapshot().iter().map(|s| s.id).collect();
    assert_eq!(ids, vec![1, 2]);
}

#[test]
fn remove_takes_out_and_ignores_absent() {
    let mut registry = Registry::new();
    insert_user_at(&mut registry, &user(1, "a"), ReminderFrequency::ThirtyMin, 100);
    insert_user_at(&mut registry, &user(2, "b"), ReminderFrequency::OneHour, 200);
    insert_user_at(&mut registry, &user(3, "c"), ReminderFrequency::OneHour, 300);
    remove_user_from_reminders(&mut registry, 9);
    assert_eq!(lookup_active_reminders_count(&registry), 3);
    remove_user_from_reminders(&mut registry, 2);
    assert_eq!(lookup_active_reminders_count(&registry), 2);
    assert!(!registry.contains(2));
    assert!(registry.contains(1));
    assert!(registry.contains(3));
    let ids: Vec<u64> = registry.snapshot().iter().map(|s| s.id).collect();
    assert_eq!(ids, vec![1, 3]);
    remove_user_from_reminders(&mut registry, 2);
    assert_eq!(lookup_active_reminders_count(&registry), 2);
}

#[test]
fn update_rewrites_only_the_instant() {
    let mut registry = Registry::new();
    insert_user_at(&mut registry, &user(1, "a"), ReminderFrequency::ThirtyMin, 100);
    insert_user_at(&mut registry, &user(2, "b"), ReminderFrequency::OneHour, 200);
    update_user_to_reminder(&mut registry, 2, 999);
    let sub = registry.get(2).unwrap();
    assert_eq!(sub.last_notified_at, 999);
    assert_eq!(sub.frequency, ReminderFrequency::OneHour);
    assert_eq!(sub.name, "b");
    assert_eq!(registry.get(1).unwrap().last_notified_at, 100);
}

#[test]
fn update_of_absent_changes_nothing() {
    let mut registry = Registry::new();
    insert_user_at(&mut registry, &user(1, "a"), ReminderFrequency::ThirtyMin, 100);
    update_user_to_reminder(&mut registry, 2, 999);
    assert_eq!(lookup_active_reminders_count(&registry), 1);
    assert_eq!(registry.get(1).unwrap().last_notified_at, 100);
    assert_eq!(registry.get(2), None);
}

#[test]
fn snapshot_is_a_copy() {
    let mut registry = Registry::new();
    insert_user_at(&mut registry, &user(1, "a"), ReminderFrequency::ThirtyMin, 100);
    let snapshot = registry.snapshot();
    insert_user_at(&mut registry, &user(2, "b"), ReminderFrequency::OneHour, 200);
    update_user_to_reminder(&mut registry, 1, 500);
    assert_eq!(snapshot.len(), 1);
    assert_eq!(snapshot[0].last_notified_at, 100);
    assert_eq!(copy_of(&snapshot[0]), snapshot[0]);
}

#[test]
fn snapshot_follows_the_order_of_enrolment() {
    let mut registry = Registry::new();
    insert_user_at(&mut registry, &user(8, "h"), ReminderFrequency::ThirtyMin, 100);
    insert_user_at(&mut registry, &user(3, "c"), ReminderFrequency::OneHour, 200);
    insert_user_at(&mut registry, &user(5, "e"), ReminderFrequency::OneHour, 300);
    let ids: Vec<u64> = registry.snapshot().iter().map(|s| s.id).collect();
    assert_eq!(ids, vec![8, 3, 5]);
    registry.take_out(8);
    registry.put(Subscriber {
        id: 5,
        name: "e".to_string(),
        frequency: ReminderFrequency::ThreeHours,
        last_notified_at: 9,
    });
    registry.put(Subscriber {
        id: 1,
        name: "a".to_string(),
        frequency: ReminderFrequency::ThirtyMin,
        last_notified_at: 10,
    });
    let ids: Vec<u64> = registry.snapshot().iter().map(|s| s.id).collect();
    assert_eq!(ids, vec![3, 5, 1]);
    assert_eq!(registry.get(5).unwrap().last_notified_at, 9);
}

#[test]
fn load_fills_the_registry_from_rows() {
    let rows = vec![
        UserRow {
            user_id: 11,
            username: "ann".to_string(),
            reminder_frequency: "ThirtyMin".to_string(),
            last_reminded: "2015-05-15 00:00:00".to_string(),
        },
        UserRow {
            user_id: 12,
            username: "bob".to_string(),
            reminder_frequency: "Weekly".to_string(),
            last_reminded: "yesterday".to_string(),
        },
        UserRow {
            user_id: 11,
            username: "ann again".to_string(),
            reminder_frequency: "ThreeHours".to_string(),
            last_reminded: "2015-05-15 00:00:10".to_string(),
        },
    ];
    let mut registry = Registry::new();
    load_users_from_database(&mut registry, &rows, 5_000);
    assert_eq!(lookup_active_reminders_count(&registry), 2);
    assert_eq!(
        registry.get(11),
        Some(Subscriber {
            id: 11,
            name: "ann again".to_string(),
            frequency: ReminderFrequency::ThreeHours,
            last_notified_at: 1_431_648_010,
        })
    );
    assert_eq!(
        registry.get(12),
        Some(Subscriber {
            id: 12,
            name: "bob".to_string(),
            frequency: ReminderFrequency::OneHour,
            last_notified_at: 5_000,
        })
    );
}
