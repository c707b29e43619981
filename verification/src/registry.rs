//! The registry of subscribers: who is reminded, at which cadence, and when
//! each was last reminded. A subscriber is known by its identifier alone, and
//! no identifier occurs twice.

use vstd::prelude::*;
use crate::clock::current_timestamp;
use crate::database::{load_user, loaded_users, row_views, UserData, UserRow};
use crate::frequency::ReminderFrequency;

verus! {

/// A user enrolled for reminders.
#[derive(Debug, Clone, PartialEq, Eq)]
pub struct Subscriber {
    pub id: u64,
    pub name: String,
    pub frequency: ReminderFrequency,
    pub last_notified_at: i64,
}

/// A subscriber as contracts see it.
pub ghost struct SubscriberView {
    pub id: u64,
    pub name: Seq<char>,
    pub frequency: ReminderFrequency,
    pub last_notified_at: i64,
}

impl View for Subscriber {
    type V = SubscriberView;

    open spec fn view(&self) -> SubscriberView {
        SubscriberView {
            id: self.id,
            name: self.name@,
            frequency: self.frequency,
            last_notified_at: self.last_notified_at,
        }
    }
}

/// The subscribers of a vector as contracts see them.
pub open spec fn subscriber_views(subs: Seq<Subscriber>) -> Seq<SubscriberView> {
    Seq::new(subs.len(), |i: int| subs[i]@)
}

/// No identifier occurs twice.
pub open spec fn distinct_ids(subs: Seq<SubscriberView>) -> bool {
    forall|i: int, j: int|
        0 <= i < subs.len() && 0 <= j < subs.len() && i != j ==> subs[i].id != subs[j].id
}

/// Some subscriber has this identifier.
pub open spec fn has_id(subs: Seq<SubscriberView>, id: u64) -> bool {
    exists|i: int| 0 <= i < subs.len() && subs[i].id == id
}

/// A position at which the identifier stands; meaningful where `has_id` holds.
pub open spec fn index_of_id(subs: Seq<SubscriberView>, id: u64) -> int {
    choose|i: int| 0 <= i < subs.len() && subs[i].id == id
}

/// The subscriber with this identifier, if there is one.
pub open spec fn lookup(subs: Seq<SubscriberView>, id: u64) -> Option<SubscriberView> {
    if has_id(subs, id) {
        Some(subs[index_of_id(subs, id)])
    } else {
        None
    }
}

/// The subscribers as a mapping from identifier to subscriber.
pub open spec fn as_map(subs: Seq<SubscriberView>) -> Map<u64, SubscriberView> {
    Map::new(|id: u64| has_id(subs, id), |id: u64| subs[index_of_id(subs, id)])
}

/// The subscribers after `sub` is written: in place of the one with its
/// identifier, or at the end if there was none.
pub open spec fn inserted(subs: Seq<SubscriberView>, sub: SubscriberView) -> Seq<SubscriberView> {
    if has_id(subs, sub.id) {
        subs.update(index_of_id(subs, sub.id), sub)
    } else {
        subs.push(sub)
    }
}

/// The subscribers without the one that has this identifier.
pub open spec fn removed(subs: Seq<SubscriberView>, id: u64) -> Seq<SubscriberView> {
    if has_id(subs, id) {
        subs.remove(index_of_id(subs, id))
    } else {
        subs
    }
}

/// The subscribers after the one with this identifier, if any, was reminded
/// at `at`.
pub open spec fn reminded(subs: Seq<SubscriberView>, id: u64, at: i64) -> Seq<SubscriberView> {
    if has_id(subs, id) {
        let i = index_of_id(subs, id);
        subs.update(i, SubscriberView { last_notified_at: at, ..subs[i] })
    } else {
        subs
    }
}

/// The subscribers after the first `n` of `new` are written, one after the
/// other.
pub open spec fn inserted_all(
    subs: Seq<SubscriberView>,
    new: Seq<SubscriberView>,
    n: nat,
) -> Seq<SubscriberView>
    decreases n,
{
    if n == 0 {
        subs
    } else {
        inserted(inserted_all(subs, new, (n - 1) as nat), new[n - 1])
    }
}

/// The working set of subscribers.
pub struct Registry {
    entries: Vec<Subscriber>,
}

impl View for Registry {
    type V = Seq<SubscriberView>;

    closed spec fn view(&self) -> Seq<SubscriberView> {
        Seq::new(self.entries@.len(), |i: int| self.entries@[i]@)
    }
}

impl Registry {
    /// The registry's invariant: no identifier occurs twice.
    pub open spec fn wf(&self) -> bool {
        distinct_ids(self@)
    }

    /// A registry without subscribers.
    pub fn new() -> (registry: Registry)
        ensures
            registry@ == Seq::<SubscriberView>::empty(),
            registry.wf(),
    {
        let registry = Registry { entries: Vec::new() };
        assert(registry@ =~= Seq::<SubscriberView>::empty());
        registry
    }

    /// Where the subscriber with this identifier stands, if it is enrolled.
    fn position(&self, id: u64) -> (found: Option<usize>)
        requires
            self.wf(),
        ensures
            match found {
                Some(i) => i < self@.len() && self@[i as int].id == id && has_id(self@, id)
                    && index_of_id(self@, id) == i,
                None => !has_id(self@, id),
            },
    {
        let mut i: usize = 0;
        while i < self.entries.len()
            invariant
                i <= self.entries.len(),
                self.wf(),
                self@.len() == self.entries.len(),
                forall|k: int| 0 <= k < i ==> self@[k].id != id,
            decreases self.entries.len() - i,
        {
            if self.entries[i].id == id {
                proof {
                    assert(self@[i as int].id == id);
                    let j = index_of_id(self@, id);
                    assert(0 <= j < self@.len() && self@[j].id == id);
                    assert(j == i);
                }
                return Some(i);
            }
            i += 1;
        }
        None
    }

    /// Whether a subscriber with this identifier is enrolled.
    pub fn contains(&self, id: u64) -> (enrolled: bool)
        requires
            self.wf(),
        ensures
            enrolled == has_id(self@, id),
    {
        self.position(id).is_some()
    }

    /// A copy of the subscriber with this identifier, if it is enrolled.
    pub fn get(&self, id: u64) -> (found: Option<Subscriber>)
        requires
            self.wf(),
        ensures
            match found {
                Some(sub) => lookup(self@, id) == Some(sub@),
                None => lookup(self@, id).is_none(),
            },
    {
        match self.position(id) {
            Some(i) => Some(copy_of(&self.entries[i])),
            None => None,
        }
    }

    /// Writes a subscriber: over the one with its identifier, or as a new one.
    pub fn put(&mut self, sub: Subscriber)
        requires
            old(self).wf(),
        ensures
            final(self).wf(),
            final(self)@ == inserted(old(self)@, sub@),
    {
        match self.position(sub.id) {
            Some(i) => {
                let ghost before = self@;
                self.entries[i] = sub;
                assert(self@ =~= before.update(i as int, sub@));
            },
            None => {
                let ghost before = self@;
                self.entries.push(sub);
                assert(self@ =~= before.push(sub@));
            },
        }
    }

    /// Takes out the subscriber with this identifier, if it is enrolled.
    pub fn take_out(&mut self, id: u64)
        requires
            old(self).wf(),
        ensures
            final(self).wf(),
            final(self)@ == removed(old(self)@, id),
    {
        match self.position(id) {
            Some(i) => {
                let ghost before = self@;
                self.entries.remove(i);
                assert(self@ =~= before.remove(i as int));
            },
            None => {},
        }
    }

    /// The subscriber at a position of the registry's order.
    pub(crate) fn subscriber_at(&self, i: usize) -> (sub: &Subscriber)
        requires
            i < self@.len(),
        ensures
            sub@ == self@[i as int],
    {
        &self.entries[i]
    }

    /// Records that the subscriber at a position was reminded at `at`.
    pub(crate) fn remind_at(&mut self, i: usize, at: i64)
        requires
            old(self).wf(),
            i < old(self)@.len(),
        ensures
            final(self).wf(),
            final(self)@ == old(self)@.update(
                i as int,
                SubscriberView { last_notified_at: at, ..old(self)@[i as int] },
            ),
    {
        let ghost before = self@;
        self.entries[i].last_notified_at = at;
        assert(self@ =~= before.update(
            i as int,
            SubscriberView { last_notified_at: at, ..before[i as int] },
        ));
    }

    /// Number of enrolled subscribers.
    pub fn len(&self) -> (count: usize)
        ensures
            count == self@.len(),
    {
        self.entries.len()
    }

    /// A copy of every subscriber, in the registry's order. Later changes to
    /// the registry do not show in it.
    pub fn snapshot(&self) -> (copy: Vec<Subscriber>)
        ensures
            subscriber_views(copy@) == self@,
    {
        let mut copy: Vec<Subscriber> = Vec::new();
        let mut i: usize = 0;
        while i < self.entries.len()
            invariant
                i <= self.entries.len(),
                self@.len() == self.entries.len(),
                copy@.len() == i,
                forall|k: int| 0 <= k < i ==> copy@[k]@ == self@[k],
            decreases self.entries.len() - i,
        {
            copy.push(copy_of(&self.entries[i]));
            i += 1;
        }
        assert(subscriber_views(copy@) =~= self@);
        copy
    }
}

/// A copy of a subscriber.
pub fn copy_of(sub: &Subscriber) -> (copy: Subscriber)
    ensures
        copy@ == sub@,
{
    Subscriber {
        id: sub.id,
        name: sub.name.clone(),
        frequency: sub.frequency,
        last_notified_at: sub.last_notified_at,
    }
}

/// Enrols a user at `now`, or enrols it again: the cadence and the time of the
/// last reminder are written over what was there.
pub fn insert_user_at(
    registry: &mut Registry,
    user: &UserData,
    frequency: ReminderFrequency,
    now: i64,
)
    requires
        old(registry).wf(),
    ensures
        final(registry).wf(),
        final(registry)@ == inserted(
            old(registry)@,
            SubscriberView { id: user.id, name: user.name@, frequency, last_notified_at: now },
        ),
{
    registry.put(
        Subscriber { id: user.id, name: user.name.clone(), frequency, last_notified_at: now },
    );
}

/// Enrols a user at the current instant, which is returned.
pub fn insert_new_user_to_remind(
    registry: &mut Registry,
    user: &UserData,
    frequency: ReminderFrequency,
) -> (now: i64)
    requires
        old(registry).wf(),
    ensures
        final(registry).wf(),
        final(registry)@ == inserted(
            old(registry)@,
            SubscriberView { id: user.id, name: user.name@, frequency, last_notified_at: now },
        ),
{
    let now = current_timestamp();
    insert_user_at(registry, user, frequency, now);
    now
}

/// Number of enrolled subscribers.
pub fn lookup_active_reminders_count(registry: &Registry) -> (count: usize)
    ensures
        count == registry@.len(),
{
    registry.len()
}

/// Records that a subscriber was reminded at `date`. Nothing changes if no
/// subscriber has this identifier.
pub fn update_user_to_reminder(registry: &mut Registry, user_id: u64, date: i64)
    requires
        old(registry).wf(),
    ensures
        final(registry).wf(),
        final(registry)@ == reminded(old(registry)@, user_id, date),
{
    match registry.get(user_id) {
        Some(sub) => {
            registry.put(
                Subscriber {
                    id: sub.id,
                    name: sub.name,
                    frequency: sub.frequency,
                    last_notified_at: date,
                },
            );
        },
        None => {},
    }
}

/// Takes a subscriber out. Nothing changes if no subscriber has this
/// identifier.
pub fn remove_user_from_reminders(registry: &mut Registry, user_id: u64)
    requires
        old(registry).wf(),
    ensures
        final(registry).wf(),
        final(registry)@ == removed(old(registry)@, user_id),
{
    registry.take_out(user_id);
}

/// Fills the registry from stored rows when loading at `now`: each row is
/// read and written in turn, so a later row with the identifier of an earlier
/// one takes its place.
pub fn load_users_from_database(registry: &mut Registry, rows: &Vec<UserRow>, now: i64)
    requires
        old(registry).wf(),
    ensures
        final(registry).wf(),
        final(registry)@ == inserted_all(
            old(registry)@,
            loaded_users(row_views(rows@), now),
            rows@.len(),
        ),
{
    let ghost before = registry@;
    let ghost new = loaded_users(row_views(rows@), now);
    let mut i: usize = 0;
    while i < rows.len()
        invariant
            i <= rows.len(),
            registry.wf(),
            new == loaded_users(row_views(rows@), now),
            registry@ == inserted_all(before, new, i as nat),
        decreases rows.len() - i,
    {
        let sub = load_user(&rows[i], now);
        assert(sub@ == new[i as int]);
        registry.put(sub);
        i += 1;
    }
}

/// Where distinct identifiers hold, an identifier stands at one position only.
pub proof fn index_of_id_is_unique(subs: Seq<SubscriberView>, id: u64, i: int)
    requires
        distinct_ids(subs),
        0 <= i < subs.len(),
        subs[i].id == id,
    ensures
        has_id(subs, id),
        index_of_id(subs, id) == i,
{
    let j = index_of_id(subs, id);
    assert(0 <= j < subs.len() && subs[j].id == id);
}

/// Writing a subscriber keeps identifiers distinct, leaves it enrolled as
/// written, and adds one to the count exactly when it was not enrolled.
pub proof fn insert_enrols(subs: Seq<SubscriberView>, sub: SubscriberView)
    requires
        distinct_ids(subs),
    ensures
        distinct_ids(inserted(subs, sub)),
        lookup(inserted(subs, sub), sub.id) == Some(sub),
        inserted(subs, sub).len() == if has_id(subs, sub.id) {
            subs.len()
        } else {
            subs.len() + 1
        },
        inserted(subs, sub).len() >= 1,
{
    let after = inserted(subs, sub);
    if has_id(subs, sub.id) {
        let i = index_of_id(subs, sub.id);
        assert(after[i] == sub);
        assert(distinct_ids(after)) by {
            assert forall|a: int, b: int|
                0 <= a < after.len() && 0 <= b < after.len() && a != b implies after[a].id
                != after[b].id by {
                assert(after[a].id == subs[a].id);
                assert(after[b].id == subs[b].id);
            }
        }
        index_of_id_is_unique(after, sub.id, i);
    } else {
        let i = subs.len() as int;
        assert(after[i] == sub);
        assert(distinct_ids(after)) by {
            assert forall|a: int, b: int|
                0 <= a < after.len() && 0 <= b < after.len() && a != b implies after[a].id
                != after[b].id by {
                if a < subs.len() {
                    assert(after[a].id == subs[a].id);
                }
                if b < subs.len() {
                    assert(after[b].id == subs[b].id);
                }
            }
        }
        index_of_id_is_unique(after, sub.id, i);
    }
}

/// Read as a mapping from identifier to subscriber, writing a subscriber is
/// an insertion under its identifier: what stood there is overwritten and
/// every other identifier maps to what it did.
pub proof fn insert_overwrites(subs: Seq<SubscriberView>, sub: SubscriberView)
    requires
        distinct_ids(subs),
    ensures
        as_map(inserted(subs, sub)) == as_map(subs).insert(sub.id, sub),
{
    let after = inserted(subs, sub);
    insert_enrols(subs, sub);
    assert forall|id: u64| id != sub.id && has_id(after, id) implies has_id(subs, id) by {
        let k = index_of_id(after, id);
        assert(after[k] == subs[k]);
    }
    assert forall|id: u64| id != sub.id && has_id(subs, id) implies has_id(after, id)
        && after[index_of_id(after, id)] == subs[index_of_id(subs, id)] by {
        let k = index_of_id(subs, id);
        assert(after[k] == subs[k]);
        index_of_id_is_unique(after, id, k);
    }
    assert(as_map(after) =~= as_map(subs).insert(sub.id, sub));
}

/// Read as a mapping, taking a subscriber out removes its identifier and
/// leaves every other identifier mapped to what it was.
pub proof fn remove_forgets(subs: Seq<SubscriberView>, id: u64)
    requires
        distinct_ids(subs),
    ensures
        as_map(removed(subs, id)) == as_map(subs).remove(id),
{
    let after = removed(subs, id);
    remove_unenrols(subs, id);
    if has_id(subs, id) {
        let i = index_of_id(subs, id);
        assert forall|other: u64| other != id && has_id(after, other) implies has_id(
            subs,
            other,
        ) by {
            let k = index_of_id(after, other);
            let k0 = if k < i { k } else { k + 1 };
            assert(after[k] == subs[k0]);
        }
        assert forall|other: u64| other != id && has_id(subs, other) implies has_id(
            after,
            other,
        ) && after[index_of_id(after, other)] == subs[index_of_id(subs, other)] by {
            let k0 = index_of_id(subs, other);
            let k = if k0 < i { k0 } else { k0 - 1 };
            assert(after[k] == subs[k0]);
            index_of_id_is_unique(after, other, k);
        }
    }
    assert(as_map(after) =~= as_map(subs).remove(id));
}

/// Read as a mapping, recording a reminder rewrites the time of the last
/// reminder of an enrolled subscriber and nothing else.
pub proof fn reminder_rewrites_the_instant(subs: Seq<SubscriberView>, id: u64, at: i64)
    requires
        distinct_ids(subs),
    ensures
        distinct_ids(reminded(subs, id, at)),
        reminded(subs, id, at).len() == subs.len(),
        as_map(reminded(subs, id, at)) == if has_id(subs, id) {
            as_map(subs).insert(id, SubscriberView { last_notified_at: at, ..as_map(subs)[id] })
        } else {
            as_map(subs)
        },
{
    if has_id(subs, id) {
        let i = index_of_id(subs, id);
        let sub = SubscriberView { last_notified_at: at, ..subs[i] };
        assert(reminded(subs, id, at) == inserted(subs, sub));
        insert_enrols(subs, sub);
        insert_overwrites(subs, sub);
    }
}

/// The count of a registry is the number of identifiers enrolled.
pub proof fn count_is_number_of_identifiers(subs: Seq<SubscriberView>)
    requires
        distinct_ids(subs),
    ensures
        as_map(subs).dom().finite(),
        as_map(subs).dom().len() == subs.len(),
    decreases subs.len(),
{
    if subs.len() == 0 {
        assert(as_map(subs).dom() =~= Set::<u64>::empty());
    } else {
        let rest = subs.drop_last();
        let last = subs.last();
        count_is_number_of_identifiers(rest);
        assert(!has_id(rest, last.id)) by {
            if has_id(rest, last.id) {
                let k = index_of_id(rest, last.id);
                assert(rest[k] == subs[k]);
            }
        }
        assert(inserted(rest, last) =~= subs);
        insert_overwrites(rest, last);
        assert(as_map(subs).dom() =~= as_map(rest).dom().insert(last.id));
    }
}

/// Enrolling a user twice leaves one subscriber under its identifier: the
/// second enrolment takes the place of the first, the count stays as it was
/// after the first, and the registry is as if only the second had been made.
pub proof fn insert_twice_replaces(
    subs: Seq<SubscriberView>,
    first: SubscriberView,
    second: SubscriberView,
)
    requires
        distinct_ids(subs),
        first.id == second.id,
    ensures
        inserted(inserted(subs, first), second).len() == inserted(subs, first).len(),
        lookup(inserted(inserted(subs, first), second), first.id) == Some(second),
        inserted(inserted(subs, first), second) == inserted(subs, second),
{
    let once = inserted(subs, first);
    insert_enrols(subs, first);
    insert_enrols(once, second);
    assert(has_id(once, second.id));
    if has_id(subs, first.id) {
        let i = index_of_id(subs, first.id);
        assert(once[i] == first);
        index_of_id_is_unique(once, second.id, i);
        assert(inserted(once, second) =~= inserted(subs, second));
    } else {
        let i = subs.len() as int;
        assert(once[i] == first);
        index_of_id_is_unique(once, second.id, i);
        assert(inserted(once, second) =~= inserted(subs, second));
    }
}

/// Removing an identifier that is not enrolled changes nothing; removing one
/// that is leaves it out and the others in place.
pub proof fn remove_unenrols(subs: Seq<SubscriberView>, id: u64)
    requires
        distinct_ids(subs),
    ensures
        distinct_ids(removed(subs, id)),
        !has_id(removed(subs, id), id),
        !has_id(subs, id) ==> removed(subs, id) == subs,
        has_id(subs, id) ==> removed(subs, id).len() + 1 == subs.len(),
{
    let after = removed(subs, id);
    if has_id(subs, id) {
        let i = index_of_id(subs, id);
        assert forall|a: int| 0 <= a < after.len() implies after[a].id != id by {
            if a < i {
                assert(after[a] == subs[a]);
            } else {
                assert(after[a] == subs[a + 1]);
            }
        }
        assert forall|a: int, b: int|
            0 <= a < after.len() && 0 <= b < after.len() && a != b implies after[a].id
            != after[b].id by {
            let a0 = if a < i { a } else { a + 1 };
            let b0 = if b < i { b } else { b + 1 };
            assert(after[a] == subs[a0]);
            assert(after[b] == subs[b0]);
        }
    }
}

} // verus!
