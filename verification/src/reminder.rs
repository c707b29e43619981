//! The sweep: who is due for a reminder, what each is sent, and what the
//! registry holds afterwards.

use vstd::prelude::*;
use crate::clock::current_timestamp;
use crate::custom_messages::{is_resolved, resolve, CustomMessageView, CustomMessages};
use crate::frequency::ReminderFrequency;
use crate::registry::{
    distinct_ids, index_of_id_is_unique, reminded, subscriber_views, update_user_to_reminder,
    Registry, Subscriber, SubscriberView,
};

verus! {

/// A reminder to deliver: to whom, at which cadence, and with what text.
#[derive(Debug, Clone, PartialEq, Eq)]
pub struct Reminder {
    pub user_id: u64,
    pub frequency: ReminderFrequency,
    pub text: String,
}

/// Whether a subscriber last reminded at `last_notified_at` is due at `now`:
/// a full interval of its cadence has gone by and `now` lies past its end.
pub open spec fn is_due_spec(last_notified_at: i64, frequency: ReminderFrequency, now: i64) -> bool {
    last_notified_at + frequency.interval() < now
}

/// Whether a subscriber is due at `now`.
pub open spec fn due(sub: SubscriberView, now: i64) -> bool {
    is_due_spec(sub.last_notified_at, sub.frequency, now)
}

/// The subscribers among the first `n` that are due at `now`, in order.
pub open spec fn due_among(subs: Seq<SubscriberView>, now: i64, n: nat) -> Seq<SubscriberView>
    decreases n,
{
    if n == 0 {
        Seq::empty()
    } else if due(subs[n - 1], now) {
        due_among(subs, now, (n - 1) as nat).push(subs[n - 1])
    } else {
        due_among(subs, now, (n - 1) as nat)
    }
}

/// The subscribers that are due at `now`, in order.
pub open spec fn due_subscribers(subs: Seq<SubscriberView>, now: i64) -> Seq<SubscriberView> {
    due_among(subs, now, subs.len())
}

/// A subscriber after a sweep at `now`: reminded at `now` if it was due,
/// untouched if not.
pub open spec fn swept_one(sub: SubscriberView, now: i64) -> SubscriberView {
    if due(sub, now) {
        SubscriberView { last_notified_at: now, ..sub }
    } else {
        sub
    }
}

/// The subscribers after a sweep at `now` has gone over the first `n`.
pub open spec fn swept_among(subs: Seq<SubscriberView>, now: i64, n: nat) -> Seq<SubscriberView> {
    Seq::new(
        subs.len(),
        |i: int|
            if i < n {
                swept_one(subs[i], now)
            } else {
                subs[i]
            },
    )
}

/// The subscribers after a sweep at `now`.
pub open spec fn swept(subs: Seq<SubscriberView>, now: i64) -> Seq<SubscriberView> {
    swept_among(subs, now, subs.len())
}

/// Whether the reminders are those of a sweep over `targets`: one for each,
/// in order, each with a text that may be sent for its cadence.
pub open spec fn reminders_match(
    sent: Seq<Reminder>,
    targets: Seq<SubscriberView>,
    table: Map<ReminderFrequency, CustomMessageView>,
) -> bool {
    &&& sent.len() == targets.len()
    &&& forall|k: int|
        0 <= k < sent.len() ==> {
            &&& (#[trigger] sent[k]).user_id == targets[k].id
            &&& sent[k].frequency == targets[k].frequency
            &&& is_resolved(table, sent[k].frequency, sent[k].text@)
        }
}

/// To whom the reminders go, in order.
pub open spec fn reminded_ids(sent: Seq<Reminder>) -> Seq<u64> {
    Seq::new(sent.len(), |k: int| sent[k].user_id)
}

/// The identifiers of subscribers, in order.
pub open spec fn ids_of(subs: Seq<SubscriberView>) -> Seq<u64> {
    Seq::new(subs.len(), |k: int| subs[k].id)
}

/// The subscribers after each of `ids`, in turn, was recorded as reminded at
/// `at`. An identifier that is not enrolled changes nothing.
pub open spec fn reminded_all(subs: Seq<SubscriberView>, ids: Seq<u64>, at: i64) -> Seq<
    SubscriberView,
>
    decreases ids.len(),
{
    if ids.len() == 0 {
        subs
    } else {
        reminded(reminded_all(subs, ids.drop_last(), at), ids.last(), at)
    }
}

/// Whether a subscriber last reminded at `last_notified_at` is due at `now`.
/// An interval that would end past the last instant that can be told never
/// ends before `now`.
pub fn is_due(last_notified_at: i64, frequency: ReminderFrequency, now: i64) -> (due: bool)
    ensures
        due == is_due_spec(last_notified_at, frequency, now),
{
    match last_notified_at.checked_add(frequency.interval_seconds()) {
        Some(limit) => limit < now,
        None => false,
    }
}

/// The reminder to deliver to a subscriber that is due: the custom text of its
/// cadence, word for word, where the table holds one; else a default text
/// drawn at random.
pub fn dm_user_reminder(table: &CustomMessages, user_id: u64, frequency: ReminderFrequency) -> (reminder:
    Reminder)
    ensures
        reminder.user_id == user_id,
        reminder.frequency == frequency,
        is_resolved(table@, frequency, reminder.text@),
{
    Reminder { user_id, frequency, text: resolve(table, frequency) }
}

/// The first half of a sweep, on a copy of the registry: the reminders for
/// the subscribers of the copy that are due at `now`, one for each, in order.
pub fn due_reminders(snapshot: &Vec<Subscriber>, table: &CustomMessages, now: i64) -> (sent: Vec<
    Reminder,
>)
    ensures
        reminders_match(sent@, due_subscribers(subscriber_views(snapshot@), now), table@),
{
    let ghost subs = subscriber_views(snapshot@);
    let mut sent: Vec<Reminder> = Vec::new();
    let mut i: usize = 0;
    while i < snapshot.len()
        invariant
            i <= snapshot.len(),
            subs == subscriber_views(snapshot@),
            reminders_match(sent@, due_among(subs, now, i as nat), table@),
        decreases snapshot.len() - i,
    {
        let sub = &snapshot[i];
        assert(subs[i as int] == sub@);
        let ghost targets = due_among(subs, now, i as nat);
        if is_due(sub.last_notified_at, sub.frequency, now) {
            sent.push(dm_user_reminder(table, sub.id, sub.frequency));
            proof {
                assert(due_among(subs, now, (i + 1) as nat) == targets.push(subs[i as int]));
            }
        }
        i += 1;
    }
    sent
}

/// The second half of a sweep: each subscriber a reminder went to is recorded
/// as reminded at `now`. One that has left the registry in the meantime stays
/// out, and one that has joined is not touched.
pub fn record_reminders(registry: &mut Registry, sent: &Vec<Reminder>, now: i64)
    requires
        old(registry).wf(),
    ensures
        final(registry).wf(),
        final(registry)@ == reminded_all(old(registry)@, reminded_ids(sent@), now),
{
    let ghost before = registry@;
    let ghost ids = reminded_ids(sent@);
    let mut i: usize = 0;
    while i < sent.len()
        invariant
            i <= sent.len(),
            ids == reminded_ids(sent@),
            registry.wf(),
            registry@ == reminded_all(before, ids.take(i as int), now),
        decreases sent.len() - i,
    {
        proof {
            assert(ids.take(i + 1).drop_last() =~= ids.take(i as int));
            assert(ids.take(i + 1).last() == sent@[i as int].user_id);
        }
        update_user_to_reminder(registry, sent[i].user_id, now);
        i += 1;
    }
    proof {
        assert(ids.take(sent.len() as int) =~= ids);
    }
}

/// One sweep at `now`. Every subscriber that is due gets exactly one
/// reminder, with the custom text of its cadence or a default one, and is
/// recorded as reminded at `now`; the others are left as they were.
pub fn walk_reminders_at(registry: &mut Registry, table: &CustomMessages, now: i64) -> (sent: Vec<
    Reminder,
>)
    requires
        old(registry).wf(),
    ensures
        final(registry).wf(),
        final(registry)@ == swept(old(registry)@, now),
        reminders_match(sent@, due_subscribers(old(registry)@, now), table@),
        forall|a: int, b: int|
            0 <= a < sent@.len() && 0 <= b < sent@.len() && a != b ==> sent@[a].user_id
                != sent@[b].user_id,
{
    let ghost before = registry@;
    let mut sent: Vec<Reminder> = Vec::new();
    let count = registry.len();
    let mut i: usize = 0;
    proof {
        assert(registry@ =~= swept_among(before, now, 0));
    }
    while i < count
        invariant
            i <= count,
            count == before.len(),
            registry.wf(),
            registry@ == swept_among(before, now, i as nat),
            reminders_match(sent@, due_among(before, now, i as nat), table@),
        decreases count - i,
    {
        let sub = registry.subscriber_at(i);
        let user_id = sub.id;
        let frequency = sub.frequency;
        let ghost targets = due_among(before, now, i as nat);
        if is_due(sub.last_notified_at, frequency, now) {
            sent.push(dm_user_reminder(table, user_id, frequency));
            registry.remind_at(i, now);
            proof {
                assert(due_among(before, now, (i + 1) as nat) == targets.push(before[i as int]));
            }
        }
        proof {
            assert(registry@ =~= swept_among(before, now, (i + 1) as nat));
        }
        i += 1;
    }
    proof {
        sweep_reminds_each_once(before, now);
    }
    sent
}

/// One sweep at the current instant, which is returned with the reminders.
pub fn walk_reminders(registry: &mut Registry, table: &CustomMessages) -> (outcome: (
    i64,
    Vec<Reminder>,
))
    requires
        old(registry).wf(),
    ensures
        final(registry).wf(),
        final(registry)@ == swept(old(registry)@, outcome.0),
        reminders_match(outcome.1@, due_subscribers(old(registry)@, outcome.0), table@),
        forall|a: int, b: int|
            0 <= a < outcome.1@.len() && 0 <= b < outcome.1@.len() && a != b
                ==> outcome.1@[a].user_id != outcome.1@[b].user_id,
{
    let now = current_timestamp();
    let sent = walk_reminders_at(registry, table, now);
    (now, sent)
}

/// A subscriber is not due before the interval of its cadence has gone by
/// since its last reminder, and is due at every instant past the end of that
/// interval.
pub proof fn due_once_interval_has_passed(
    last_notified_at: i64,
    frequency: ReminderFrequency,
    now: i64,
)
    requires
        now != last_notified_at + frequency.interval(),
    ensures
        is_due_spec(last_notified_at, frequency, now) <==> now >= last_notified_at
            + frequency.interval(),
{
}

/// A sweep leaves every subscriber enrolled, under its identifier, name and
/// cadence; a subscriber that was not due keeps the time of its last
/// reminder, and one that was due is not due again at the instant of the
/// sweep.
pub proof fn sweep_keeps_subscribers(subs: Seq<SubscriberView>, now: i64, i: int)
    requires
        0 <= i < subs.len(),
    ensures
        swept(subs, now).len() == subs.len(),
        swept(subs, now)[i].id == subs[i].id,
        swept(subs, now)[i].name == subs[i].name,
        swept(subs, now)[i].frequency == subs[i].frequency,
        !due(subs[i], now) ==> swept(subs, now)[i] == subs[i],
        due(subs[i], now) ==> swept(subs, now)[i].last_notified_at == now,
        !due(swept(subs, now)[i], now),
{
}

/// Recording the reminders of the subscribers that are due, one after the
/// other, leaves the registry as one sweep does, as long as nobody joined or
/// left in between.
pub proof fn recording_the_due_is_the_sweep(subs: Seq<SubscriberView>, now: i64)
    requires
        distinct_ids(subs),
    ensures
        reminded_all(subs, ids_of(due_subscribers(subs, now)), now) == swept(subs, now),
{
    recording_the_due_among(subs, now, subs.len());
}

proof fn recording_the_due_among(subs: Seq<SubscriberView>, now: i64, n: nat)
    requires
        distinct_ids(subs),
        n <= subs.len(),
    ensures
        reminded_all(subs, ids_of(due_among(subs, now, n)), now) == swept_among(subs, now, n),
    decreases n,
{
    if n == 0 {
        assert(swept_among(subs, now, 0) =~= subs);
    } else {
        recording_the_due_among(subs, now, (n - 1) as nat);
        let sofar = swept_among(subs, now, (n - 1) as nat);
        let last = subs[n - 1];
        if due(last, now) {
            let ids = ids_of(due_among(subs, now, n));
            assert(ids.drop_last() =~= ids_of(due_among(subs, now, (n - 1) as nat)));
            assert(ids.last() == last.id);
            assert(distinct_ids(sofar)) by {
                assert forall|a: int, b: int|
                    0 <= a < sofar.len() && 0 <= b < sofar.len() && a != b implies sofar[a].id
                    != sofar[b].id by {
                    assert(sofar[a].id == subs[a].id);
                    assert(sofar[b].id == subs[b].id);
                }
            }
            assert(sofar[n - 1] == last);
            index_of_id_is_unique(sofar, last.id, n - 1);
            assert(reminded(sofar, last.id, now) =~= swept_among(subs, now, n));
        } else {
            assert(sofar =~= swept_among(subs, now, n));
        }
    }
}

/// In one sweep no subscriber is reminded twice: the subscribers that are due
/// have distinct identifiers.
pub proof fn sweep_reminds_each_once(subs: Seq<SubscriberView>, now: i64)
    requires
        distinct_ids(subs),
    ensures
        distinct_ids(due_subscribers(subs, now)),
{
    due_among_is_ordered_selection(subs, now, subs.len());
}

/// Each of the due subscribers among the first `n` stands among those `n`, and
/// a later one of them stands later.
proof fn due_among_is_ordered_selection(subs: Seq<SubscriberView>, now: i64, n: nat)
    requires
        distinct_ids(subs),
        n <= subs.len(),
    ensures
        distinct_ids(due_among(subs, now, n)),
        forall|k: int|
            0 <= k < due_among(subs, now, n).len() ==> exists|i: int|
                0 <= i < n && subs[i] == #[trigger] due_among(subs, now, n)[k],
    decreases n,
{
    if n > 0 {
        due_among_is_ordered_selection(subs, now, (n - 1) as nat);
        let rest = due_among(subs, now, (n - 1) as nat);
        let all = due_among(subs, now, n);
        if due(subs[n - 1], now) {
            assert forall|k: int| 0 <= k < all.len() implies exists|i: int|
                0 <= i < n && subs[i] == #[trigger] all[k] by {
                if k < rest.len() {
                    let i = choose|i: int| 0 <= i < n - 1 && subs[i] == rest[k];
                    assert(subs[i] == all[k]);
                } else {
                    assert(subs[n - 1] == all[k]);
                }
            }
            assert forall|a: int, b: int|
                0 <= a < all.len() && 0 <= b < all.len() && a != b implies all[a].id
                != all[b].id by {
                if a < rest.len() && b < rest.len() {
                } else if a < rest.len() {
                    let i = choose|i: int| 0 <= i < n - 1 && subs[i] == rest[a];
                    assert(subs[i].id != subs[n - 1].id);
                } else {
                    let i = choose|i: int| 0 <= i < n - 1 && subs[i] == rest[b];
                    assert(subs[i].id != subs[n - 1].id);
                }
            }
        } else {
            assert forall|k: int| 0 <= k < all.len() implies exists|i: int|
                0 <= i < n && subs[i] == #[trigger] all[k] by {
                let i = choose|i: int| 0 <= i < n - 1 && subs[i] == rest[k];
                assert(subs[i] == all[k]);
            }
        }
    }
}

} // verus!
