//! Histories of device events, and what the registry holds after them.
//!
//! The registry is driven by a stream of create and delete events on the
//! device directory. This module states, for a whole stream at once, which
//! names the registry ends up with and in which order.

use crate::events::EventKind;
use crate::registry::{
    accepts, after_device_event, all_accepted, named, without_device, Drive,
};
use crate::search::{first_index, lemma_first_index};
use vstd::prelude::*;
use vstd::seq_lib::{to_multiset_build, to_multiset_remove};

verus! {

/// One event on the device directory.
pub struct DeviceEvent {
    pub kind: EventKind,
    pub name: Seq<char>,
}

/// The registry after the events of a history, in order, starting empty.
pub open spec fn replay(events: Seq<DeviceEvent>) -> Seq<Drive>
    decreases events.len(),
{
    if events.len() == 0 {
        Seq::empty()
    } else {
        after_device_event(replay(events.drop_last()), events.last().name, events.last().kind)
    }
}

/// The names of the history's events of the given kind that pass the
/// classification rule, in the order of the events.
pub open spec fn accepted_names(events: Seq<DeviceEvent>, kind: EventKind) -> Seq<Seq<char>>
    decreases events.len(),
{
    if events.len() == 0 {
        Seq::empty()
    } else if events.last().kind == kind && accepts(events.last().name) {
        accepted_names(events.drop_last(), kind).push(events.last().name)
    } else {
        accepted_names(events.drop_last(), kind)
    }
}

/// The device names of a list of drives, in order.
pub open spec fn device_names(drives: Seq<Drive>) -> Seq<Seq<char>> {
    Seq::new(drives.len(), |i: int| drives[i].device_name)
}

/// Every delete event of the history finds an entry to remove: at the time
/// it arrives, the registry lists the device it names.
pub open spec fn deletes_find_entries(events: Seq<DeviceEvent>) -> bool
    decreases events.len(),
{
    if events.len() == 0 {
        true
    } else {
        &&& deletes_find_entries(events.drop_last())
        &&& events.last().kind == EventKind::Deleted && accepts(events.last().name)
            ==> first_index(replay(events.drop_last()), named(events.last().name)) is Some
    }
}

/// `a` can be obtained from `b` by leaving elements out, without reordering.
pub open spec fn is_subsequence<T>(a: Seq<T>, b: Seq<T>) -> bool
    decreases b.len(),
{
    if a.len() == 0 {
        true
    } else if b.len() == 0 {
        false
    } else {
        ||| a.last() == b.last() && is_subsequence(a.drop_last(), b.drop_last())
        ||| is_subsequence(a, b.drop_last())
    }
}

/// Leaving one more element out of a subsequence gives a subsequence.
pub proof fn lemma_subsequence_remove<T>(a: Seq<T>, b: Seq<T>, i: int)
    requires
        is_subsequence(a, b),
        0 <= i < a.len(),
    ensures
        is_subsequence(a.remove(i), b),
    decreases b.len(),
{
    let shorter = a.remove(i);
    if shorter.len() != 0 {
        if a.last() == b.last() && is_subsequence(a.drop_last(), b.drop_last()) {
            if i < a.len() - 1 {
                lemma_subsequence_remove(a.drop_last(), b.drop_last(), i);
                assert(shorter.drop_last() =~= a.drop_last().remove(i));
            }
        } else {
            lemma_subsequence_remove(a, b.drop_last(), i);
        }
    }
}

/// Removing an entry from a list of accepted names leaves accepted names.
proof fn lemma_remove_keeps_accepted(drives: Seq<Drive>, name: Seq<char>)
    requires
        all_accepted(drives),
    ensures
        all_accepted(without_device(drives, name)),
{
    lemma_first_index(drives, named(name));
    if let Some(i) = first_index(drives, named(name)) {
        assert forall|j: int| 0 <= j < drives.remove(i).len() implies accepts(
            #[trigger] drives.remove(i)[j].device_name,
        ) by {
            if j < i {
                assert(drives.remove(i)[j] == drives[j]);
            } else {
                assert(drives.remove(i)[j] == drives[j + 1]);
            }
        }
    }
}

/// Whatever the events and their order, every name the registry lists
/// passes the classification rule.
pub proof fn lemma_replay_lists_accepted_names_only(events: Seq<DeviceEvent>)
    ensures
        all_accepted(replay(events)),
    decreases events.len(),
{
    if events.len() != 0 {
        let before = replay(events.drop_last());
        let last = events.last();
        lemma_replay_lists_accepted_names_only(events.drop_last());
        if accepts(last.name) {
            match last.kind {
                EventKind::Created => {},
                EventKind::Deleted => {
                    lemma_first_index(before, named(last.name));
                    lemma_remove_keeps_accepted(before, last.name);
                },
            }
        }
    }
}

/// The names the registry lists after a history are accepted created names
/// of that history, in creation order: the list is the sequence of accepted
/// created names with some of them left out.
pub proof fn lemma_replay_keeps_creation_order(events: Seq<DeviceEvent>)
    ensures
        is_subsequence(device_names(replay(events)), accepted_names(events, EventKind::Created)),
    decreases events.len(),
{
    if events.len() != 0 {
        let before = replay(events.drop_last());
        let created = accepted_names(events.drop_last(), EventKind::Created);
        let last = events.last();
        lemma_replay_keeps_creation_order(events.drop_last());
        if accepts(last.name) {
            match last.kind {
                EventKind::Created => {
                    let after = before.push(Drive { device_name: last.name, mount_path: None });
                    assert(device_names(after).drop_last() =~= device_names(before));
                    assert(created.push(last.name).drop_last() =~= created);
                },
                EventKind::Deleted => {
                    lemma_first_index(before, named(last.name));
                    match first_index(before, named(last.name)) {
                        Some(i) => {
                            assert(device_names(before.remove(i)) =~= device_names(before).remove(
                                i,
                            ));
                            lemma_subsequence_remove(device_names(before), created, i);
                        },
                        None => {},
                    }
                },
            }
        }
    }
}

/// After a history in which every delete finds an entry, the accepted
/// created names are, as a multiset, the names the registry lists together
/// with the accepted deleted names.
pub proof fn lemma_replay_accounts_for_names(events: Seq<DeviceEvent>)
    requires
        deletes_find_entries(events),
    ensures
        accepted_names(events, EventKind::Created).to_multiset() == device_names(
            replay(events),
        ).to_multiset().add(accepted_names(events, EventKind::Deleted).to_multiset()),
    decreases events.len(),
{
    let created = accepted_names(events, EventKind::Created);
    let deleted = accepted_names(events, EventKind::Deleted);
    let listed = device_names(replay(events));
    if events.len() == 0 {
        assert(listed =~= Seq::<Seq<char>>::empty());
        created.to_multiset_ensures();
        deleted.to_multiset_ensures();
        assert(created.to_multiset() =~= listed.to_multiset().add(deleted.to_multiset()));
    } else {
        let earlier = events.drop_last();
        let before = replay(earlier);
        let last = events.last();
        lemma_replay_accounts_for_names(earlier);
        let created0 = accepted_names(earlier, EventKind::Created);
        let deleted0 = accepted_names(earlier, EventKind::Deleted);
        let listed0 = device_names(before);
        if accepts(last.name) {
            match last.kind {
                EventKind::Created => {
                    let after = before.push(Drive { device_name: last.name, mount_path: None });
                    assert(listed =~= listed0.push(last.name));
                    to_multiset_build(listed0, last.name);
                    to_multiset_build(created0, last.name);
                    assert(created.to_multiset() =~= listed.to_multiset().add(
                        deleted.to_multiset(),
                    ));
                },
                EventKind::Deleted => {
                    lemma_first_index(before, named(last.name));
                    let i = first_index(before, named(last.name)).unwrap();
                    assert(listed =~= listed0.remove(i));
                    to_multiset_remove(listed0, i);
                    to_multiset_build(deleted0, last.name);
                    listed0.to_multiset_ensures();
                    assert(created.to_multiset() =~= listed.to_multiset().add(
                        deleted.to_multiset(),
                    ));
                },
            }
        }
    }
}

/// After a history in which every delete finds an entry, the names the
/// registry lists are exactly, as a multiset, the accepted created names
/// minus the accepted deleted names.
pub proof fn lemma_replay_is_created_minus_deleted(events: Seq<DeviceEvent>)
    requires
        deletes_find_entries(events),
    ensures
        device_names(replay(events)).to_multiset() == accepted_names(
            events,
            EventKind::Created,
        ).to_multiset().sub(accepted_names(events, EventKind::Deleted).to_multiset()),
        is_subsequence(device_names(replay(events)), accepted_names(events, EventKind::Created)),
        all_accepted(replay(events)),
{
    lemma_replay_accounts_for_names(events);
    lemma_replay_keeps_creation_order(events);
    lemma_replay_lists_accepted_names_only(events);
    let created = accepted_names(events, EventKind::Created).to_multiset();
    let deleted = accepted_names(events, EventKind::Deleted).to_multiset();
    assert(device_names(replay(events)).to_multiset() =~= created.sub(deleted));
}

} // verus!
