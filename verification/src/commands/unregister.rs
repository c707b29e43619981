//! Leaving the reminders.

use vstd::prelude::*;
use crate::registry::{has_id, remove_user_from_reminders, removed, Registry};

verus! {

/// Takes a user out of the reminders. The answer says whether the user was
/// enrolled; if not, nothing changes.
pub fn run(registry: &mut Registry, user_id: u64) -> (was_enrolled: bool)
    requires
        old(registry).wf(),
    ensures
        final(registry).wf(),
        was_enrolled == has_id(old(registry)@, user_id),
        final(registry)@ == removed(old(registry)@, user_id),
{
    if !registry.contains(user_id) {
        return false;
    }
    remove_user_from_reminders(registry, user_id);
    true
}

} // verus!
