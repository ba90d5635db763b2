//! Filesystem events as the watcher reports them.

use vstd::prelude::*;

verus! {

/// What happened to a directory entry.
#[derive(Clone, Copy, Debug, PartialEq, Eq)]
pub enum EventKind {
    Created,
    Deleted,
}

/// The action an event mask stands for: creation or deletion where the mask
/// reports exactly one of the two, and none otherwise.
pub open spec fn kind_of(created: bool, deleted: bool) -> Option<EventKind> {
    if created && !deleted {
        Some(EventKind::Created)
    } else if deleted && !created {
        Some(EventKind::Deleted)
    } else {
        None
    }
}

impl EventKind {
    /// Reads the action off the two flags of an event mask.
    pub fn from_flags(created: bool, deleted: bool) -> (kind: Option<EventKind>)
        ensures
            kind == kind_of(created, deleted),
    {
        if created && !deleted {
            Some(EventKind::Created)
        } else if deleted && !created {
            Some(EventKind::Deleted)
        } else {
            None
        }
    }
}

/// One filesystem event as the watcher reports it.
#[derive(Clone, Debug, PartialEq, Eq)]
pub struct RawEvent {
    /// Handle of the watch that produced the event.
    pub origin: i32,
    /// What happened, or `None` where the mask does not say.
    pub action: Option<EventKind>,
    /// Base name of the entry that was created or deleted.
    pub name: Option<String>,
}

/// The mathematical form of a [`RawEvent`].
pub struct Event {
    pub origin: i32,
    pub action: Option<EventKind>,
    pub name: Option<Seq<char>>,
}

impl View for RawEvent {
    type V = Event;

    open spec fn view(&self) -> Event {
        Event { origin: self.origin, action: self.action, name: self.name.deep_view() }
    }
}

} // verus!
