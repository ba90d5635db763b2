//! The disk monitor: routes filesystem events to the drive registry and
//! resolves freshly created mount directories against the mount table.
//!
//! The monitor never waits and never reads anything itself. It is a state
//! machine: the caller feeds it one [`Input`] at a time and carries out the
//! [`Action`] it answers with. A mount directory that appears may not be
//! mounted yet, so its resolution spans several steps: a settle delay,
//! then up to [`RETRY_COUNT`] polls of the mount table, each failed poll
//! followed by a pause.

use crate::events::{Event, EventKind, RawEvent};
use crate::mounts::{find_mount, mount_of, Mount, MountRecord};
use crate::registry::{
    accepts, after_device_event, backs, pairs, with_mount, without_mount, Drive, DriveRegistry,
};
use crate::search::first_index;
use vstd::prelude::*;

verus! {

/// Number of times the mount table is polled for one new mount directory.
pub const RETRY_COUNT: u8 = 10;

/// Milliseconds to wait after a mount directory appears, before the first poll.
pub const SETTLE_MILLIS: u64 = 100;

/// Milliseconds to wait after a poll that did not find the mount.
pub const RETRY_MILLIS: u64 = 100;

/// What the caller hands to the monitor.
#[derive(Clone, Debug, PartialEq, Eq)]
pub enum Input {
    /// The watcher reported an event.
    Event(RawEvent),
    /// The wait the monitor asked for is over.
    Waited,
    /// The mount table the monitor asked for.
    MountTable(Vec<MountRecord>),
    /// The mount table could not be read.
    QueryFailed,
}

/// The mathematical form of an [`Input`].
pub enum Feed {
    Event(Event),
    Waited,
    MountTable(Seq<Mount>),
    QueryFailed,
}

impl View for Input {
    type V = Feed;

    open spec fn view(&self) -> Feed {
        match self {
            Input::Event(e) => Feed::Event(e@),
            Input::Waited => Feed::Waited,
            Input::MountTable(t) => Feed::MountTable(t.deep_view()),
            Input::QueryFailed => Feed::QueryFailed,
        }
    }
}

/// What the monitor asks its caller to do next.
#[derive(Clone, Copy, Debug, PartialEq, Eq)]
pub enum Action {
    /// Sleep for this many milliseconds, then feed [`Input::Waited`].
    Wait(u64),
    /// Read the mount table, then feed it, or [`Input::QueryFailed`].
    ReadMountTable,
    /// The event is handled: emit the current snapshot.
    Emit,
    /// The event was dropped: emit nothing.
    Skip,
}

/// Something worth logging that is not an error.
#[derive(Clone, Copy, Debug, PartialEq, Eq)]
pub enum Diagnostic {
    /// The event carried no name.
    UnnamedEvent,
    /// The poll found no mount for the directory; it may not be mounted yet.
    MountNotFound,
    /// The mount was found, but no registered device backs it.
    DriveNotFound,
}

/// The monitor's answer to one input.
#[derive(Clone, Copy, Debug, PartialEq, Eq)]
pub struct Reaction {
    pub action: Action,
    pub note: Option<Diagnostic>,
}

/// An input the monitor cannot act on. The monitor is left as it was.
#[derive(Clone, Copy, Debug, PartialEq, Eq)]
pub enum Fault {
    /// The event came from a watch that is neither of the two registered ones.
    UnknownWatch(i32),
    /// The event is neither a creation nor a deletion.
    UnknownAction,
    /// The input is not the one the monitor is waiting for.
    OutOfTurn,
}

/// Where a mount resolution stands.
#[derive(Clone, Copy, Debug, PartialEq, Eq)]
pub enum Phase {
    /// No resolution under way; the next input is an event.
    Idle,
    /// Waiting out the settle delay.
    Settling,
    /// Waiting for the mount table of the poll with this number, from 1.
    Polling(u8),
    /// Waiting out the pause after the failed poll with this number.
    Backoff(u8),
}

/// The mathematical form of the resolution state: the phase together with
/// the name of the mount directory being resolved.
pub enum Stage {
    Idle,
    Settling(Seq<char>),
    Polling(Seq<char>, u8),
    Backoff(Seq<char>, u8),
}

/// The mathematical form of a [`DiskMon`].
pub struct Monitor {
    pub mount_watch: i32,
    pub drive_watch: i32,
    pub drives: Seq<Drive>,
    pub stage: Stage,
}

impl Monitor {
    /// The same monitor at another stage.
    pub open spec fn at(self, stage: Stage) -> Monitor {
        Monitor {
            mount_watch: self.mount_watch,
            drive_watch: self.drive_watch,
            drives: self.drives,
            stage,
        }
    }

    /// The same monitor with another list of drives.
    pub open spec fn holding(self, drives: Seq<Drive>) -> Monitor {
        Monitor {
            mount_watch: self.mount_watch,
            drive_watch: self.drive_watch,
            drives,
            stage: self.stage,
        }
    }
}

/// A reaction without a diagnostic.
pub open spec fn plain(action: Action) -> Reaction {
    Reaction { action, note: None }
}

/// A reaction with a diagnostic.
pub open spec fn noted(action: Action, note: Diagnostic) -> Reaction {
    Reaction { action, note: Some(note) }
}

/// The monitor's transition on a filesystem event.
pub open spec fn on_event(m: Monitor, ev: Event) -> (Monitor, Result<Reaction, Fault>) {
    if !(m.stage is Idle) {
        (m, Err(Fault::OutOfTurn))
    } else {
        match ev.name {
            None => (m, Ok(noted(Action::Skip, Diagnostic::UnnamedEvent))),
            Some(name) => if ev.origin == m.mount_watch {
                match ev.action {
                    Some(EventKind::Created) => (
                        m.at(Stage::Settling(name)),
                        Ok(plain(Action::Wait(SETTLE_MILLIS))),
                    ),
                    Some(EventKind::Deleted) => (
                        m.holding(without_mount(m.drives, name)),
                        Ok(plain(Action::Emit)),
                    ),
                    None => (m, Err(Fault::UnknownAction)),
                }
            } else if ev.origin == m.drive_watch {
                if !accepts(name) {
                    (m, Ok(plain(Action::Skip)))
                } else {
                    match ev.action {
                        Some(kind) => (
                            m.holding(after_device_event(m.drives, name, kind)),
                            Ok(plain(Action::Emit)),
                        ),
                        None => (m, Err(Fault::UnknownAction)),
                    }
                }
            } else {
                (m, Err(Fault::UnknownWatch(ev.origin)))
            },
        }
    }
}

/// The monitor's transition when a wait is over.
pub open spec fn on_waited(m: Monitor) -> (Monitor, Result<Reaction, Fault>) {
    match m.stage {
        Stage::Settling(name) => (
            m.at(Stage::Polling(name, 1)),
            Ok(plain(Action::ReadMountTable)),
        ),
        Stage::Backoff(name, attempt) => if attempt < RETRY_COUNT {
            (m.at(Stage::Polling(name, (attempt + 1) as u8)), Ok(plain(Action::ReadMountTable)))
        } else {
            (m.at(Stage::Idle), Ok(plain(Action::Emit)))
        },
        _ => (m, Err(Fault::OutOfTurn)),
    }
}

/// The monitor's transition when a poll has been searched: `hit` is the
/// record found for the mount directory, if any.
pub open spec fn on_poll_result(m: Monitor, hit: Option<Mount>) -> (
    Monitor,
    Result<Reaction, Fault>,
) {
    match m.stage {
        Stage::Polling(name, attempt) => match hit {
            Some(rec) => (
                m.holding(with_mount(m.drives, rec.source, rec.target)).at(Stage::Idle),
                Ok(
                    if first_index(m.drives, backs(rec.source)) is Some {
                        plain(Action::Emit)
                    } else {
                        noted(Action::Emit, Diagnostic::DriveNotFound)
                    },
                ),
            ),
            None => (
                m.at(Stage::Backoff(name, attempt)),
                Ok(noted(Action::Wait(RETRY_MILLIS), Diagnostic::MountNotFound)),
            ),
        },
        _ => (m, Err(Fault::OutOfTurn)),
    }
}

/// The record a poll yields for the mount directory `name`: the first one
/// of the table whose target ends with `name`. A failed query yields none.
pub open spec fn hit_in(table: Option<Seq<Mount>>, name: Seq<char>) -> Option<Mount> {
    match table {
        Some(t) => mount_of(t, name),
        None => None,
    }
}

/// The record a poll yields for the directory under resolution.
pub open spec fn poll_hit(stage: Stage, table: Option<Seq<Mount>>) -> Option<Mount> {
    match stage {
        Stage::Polling(name, _) => hit_in(table, name),
        _ => None,
    }
}

/// The monitor's transition on any input.
pub open spec fn step(m: Monitor, input: Feed) -> (Monitor, Result<Reaction, Fault>) {
    match input {
        Feed::Event(ev) => on_event(m, ev),
        Feed::Waited => on_waited(m),
        Feed::MountTable(t) => on_poll_result(m, poll_hit(m.stage, Some(t))),
        Feed::QueryFailed => on_poll_result(m, poll_hit(m.stage, None)),
    }
}

/// Whether `input` is the one a monitor at `stage` is waiting for.
pub open spec fn in_turn(stage: Stage, input: Feed) -> bool {
    match input {
        Feed::Event(_) => stage is Idle,
        Feed::Waited => stage is Settling || stage is Backoff,
        Feed::MountTable(_) | Feed::QueryFailed => stage is Polling,
    }
}

/// The input is a named event for an idle monitor that comes from neither
/// of its two watches.
pub open spec fn from_unknown_watch(m: Monitor, input: Feed) -> bool {
    &&& input matches Feed::Event(ev)
    &&& m.stage is Idle
    &&& ev.name is Some
    &&& ev.origin != m.mount_watch
    &&& ev.origin != m.drive_watch
}

/// The input is a named event for an idle monitor that is neither a
/// creation nor a deletion, and that comes from the mount watch or names an
/// accepted device on the device watch.
pub open spec fn of_unknown_action(m: Monitor, input: Feed) -> bool {
    &&& input matches Feed::Event(ev)
    &&& m.stage is Idle
    &&& ev.name matches Some(name)
    &&& ev.action is None
    &&& ev.origin == m.mount_watch || (ev.origin == m.drive_watch && accepts(name))
}

/// The device/mount correlation state machine.
pub struct DiskMon {
    mount_disc: i32,
    drive_disc: i32,
    extern_drives: DriveRegistry,
    phase: Phase,
    pending: String,
}

impl View for DiskMon {
    type V = Monitor;

    closed spec fn view(&self) -> Monitor {
        Monitor {
            mount_watch: self.mount_disc,
            drive_watch: self.drive_disc,
            drives: self.extern_drives@,
            stage: match self.phase {
                Phase::Idle => Stage::Idle,
                Phase::Settling => Stage::Settling(self.pending@),
                Phase::Polling(k) => Stage::Polling(self.pending@, k),
                Phase::Backoff(k) => Stage::Backoff(self.pending@, k),
            },
        }
    }
}

impl DiskMon {
    /// A monitor for the two watches whose handles are given: the one on the
    /// device directory and the one on the mount-root directory. It starts
    /// idle, with an empty registry.
    pub fn new(drive_disc: i32, mount_disc: i32) -> (mon: DiskMon)
        ensures
            mon@ == (Monitor {
                mount_watch: mount_disc,
                drive_watch: drive_disc,
                drives: Seq::<Drive>::empty(),
                stage: Stage::Idle,
            }),
    {
        DiskMon {
            mount_disc,
            drive_disc,
            extern_drives: DriveRegistry::new(),
            phase: Phase::Idle,
            pending: String::new(),
        }
    }

    /// The registry of present drives.
    pub fn drives(&self) -> (r: &DriveRegistry)
        ensures
            r@ == self@.drives,
    {
        &self.extern_drives
    }

    /// Where the current mount resolution stands.
    pub fn phase(&self) -> (p: Phase)
        ensures
            p == match self@.stage {
                Stage::Idle => Phase::Idle,
                Stage::Settling(_) => Phase::Settling,
                Stage::Polling(_, k) => Phase::Polling(k),
                Stage::Backoff(_, k) => Phase::Backoff(k),
            },
    {
        self.phase
    }

    /// What the emitter is given: the `(device name, mount path)` pairs in
    /// registry order, or `None` when no drive is present.
    pub fn snapshot(&self) -> (s: Option<Vec<(String, Option<String>)>>)
        ensures
            match s {
                None => self@.drives.len() == 0,
                Some(v) => self@.drives.len() > 0 && v.deep_view() == pairs(self@.drives),
            },
    {
        self.extern_drives.snapshot()
    }

    /// Handles an event from the device directory. A name that fails
    /// classification is refused with `Err` and changes nothing. For an
    /// accepted name, creation appends an unmounted entry and deletion
    /// removes the first entry of that name.
    fn handle_drives(&mut self, name: &str, kind: EventKind) -> (r: Result<(), ()>)
        ensures
            r is Ok == accepts(name@),
            final(self)@ == old(self)@.holding(after_device_event(old(self)@.drives, name@, kind)),
            !accepts(name@) ==> final(self)@ == old(self)@,
    {
        if !DriveRegistry::classify(name) {
            return Err(());
        }
        match kind {
            EventKind::Created => {
                self.extern_drives.on_device_created(name);
            },
            EventKind::Deleted => {
                self.extern_drives.on_device_deleted(name);
            },
        }
        Ok(())
    }

    /// Handles an event from the mount-root directory. A created directory
    /// starts a resolution: the monitor asks for the settle delay. A deleted
    /// directory unmounts every entry mounted under its name.
    fn handle_mounts(&mut self, name: &str, kind: EventKind) -> (action: Action)
        ensures
            kind == EventKind::Created ==> action == Action::Wait(SETTLE_MILLIS) && final(self)@
                == old(self)@.at(Stage::Settling(name@)),
            kind == EventKind::Deleted ==> action == Action::Emit && final(self)@ == old(
                self,
            )@.holding(without_mount(old(self)@.drives, name@)),
    {
        match kind {
            EventKind::Created => {
                self.pending = name.to_owned();
                self.phase = Phase::Settling;
                Action::Wait(SETTLE_MILLIS)
            },
            EventKind::Deleted => {
                self.extern_drives.on_mount_deleted(name);
                Action::Emit
            },
        }
    }

    /// Routes one filesystem event. An event without a name is skipped with
    /// a diagnostic. A named event goes to the mount handler or the device
    /// handler according to the watch it came from; any other watch is a
    /// fault, and so is an event that is neither a creation nor a deletion,
    /// unless it names a device that fails classification. Events are only
    /// taken while idle.
    pub fn route_event(&mut self, event: &RawEvent) -> (r: Result<Reaction, Fault>)
        ensures
            final(self)@ == on_event(old(self)@, event@).0,
            r == on_event(old(self)@, event@).1,
            r is Err ==> final(self)@ == old(self)@,
    {
        match self.phase {
            Phase::Idle => {},
            _ => {
                return Err(Fault::OutOfTurn);
            },
        }
        match &event.name {
            None => Ok(Reaction { action: Action::Skip, note: Some(Diagnostic::UnnamedEvent) }),
            Some(name) => {
                if event.origin == self.mount_disc {
                    match event.action {
                        Some(kind) => {
                            let action = self.handle_mounts(name.as_str(), kind);
                            Ok(Reaction { action, note: None })
                        },
                        None => Err(Fault::UnknownAction),
                    }
                } else if event.origin == self.drive_disc {
                    match event.action {
                        Some(kind) => match self.handle_drives(name.as_str(), kind) {
                            Ok(()) => Ok(Reaction { action: Action::Emit, note: None }),
                            Err(()) => Ok(Reaction { action: Action::Skip, note: None }),
                        },
                        None => if DriveRegistry::classify(name.as_str()) {
                            Err(Fault::UnknownAction)
                        } else {
                            Ok(Reaction { action: Action::Skip, note: None })
                        },
                    }
                } else {
                    Err(Fault::UnknownWatch(event.origin))
                }
            },
        }
    }

    /// Moves on after a wait. After the settle delay the first poll is
    /// requested. After the pause that follows a failed poll, the next poll
    /// is requested, unless that was the last attempt: then the resolution
    /// is given up and the monitor is idle again.
    pub fn resume(&mut self) -> (r: Result<Reaction, Fault>)
        ensures
            final(self)@ == on_waited(old(self)@).0,
            r == on_waited(old(self)@).1,
            r is Err ==> final(self)@ == old(self)@,
    {
        match self.phase {
            Phase::Settling => {
                self.phase = Phase::Polling(1);
                Ok(Reaction { action: Action::ReadMountTable, note: None })
            },
            Phase::Backoff(attempt) => {
                if attempt < RETRY_COUNT {
                    self.phase = Phase::Polling(attempt + 1);
                    Ok(Reaction { action: Action::ReadMountTable, note: None })
                } else {
                    self.phase = Phase::Idle;
                    Ok(Reaction { action: Action::Emit, note: None })
                }
            },
            _ => Err(Fault::OutOfTurn),
        }
    }

    /// Concludes a poll, given the record that the search of the mount table
    /// found for the directory under resolution. With a record, the first
    /// entry whose device name is a suffix of the record's source takes the
    /// record's target as its mount path, and the resolution is over; if no
    /// entry matches, the resolution is over all the same, with a
    /// diagnostic. Without a record the monitor asks for a pause.
    pub fn conclude_poll(&mut self, hit: Option<&MountRecord>) -> (r: Result<Reaction, Fault>)
        ensures
            final(self)@ == on_poll_result(old(self)@, hit.deep_view()).0,
            r == on_poll_result(old(self)@, hit.deep_view()).1,
            r is Err ==> final(self)@ == old(self)@,
    {
        match self.phase {
            Phase::Polling(attempt) => match hit {
                Some(rec) => {
                    let found = self.extern_drives.assign_mount(
                        rec.source.as_str(),
                        rec.target.as_str(),
                    );
                    self.phase = Phase::Idle;
                    if found {
                        Ok(Reaction { action: Action::Emit, note: None })
                    } else {
                        Ok(Reaction { action: Action::Emit, note: Some(Diagnostic::DriveNotFound) })
                    }
                },
                None => {
                    self.phase = Phase::Backoff(attempt);
                    Ok(
                        Reaction {
                            action: Action::Wait(RETRY_MILLIS),
                            note: Some(Diagnostic::MountNotFound),
                        },
                    )
                },
            },
            _ => Err(Fault::OutOfTurn),
        }
    }

    /// Takes the mount table of a poll, or `None` where it could not be
    /// read, searches it for the directory under resolution and concludes
    /// the poll with what was found.
    pub fn take_poll(&mut self, table: Option<&Vec<MountRecord>>) -> (r: Result<Reaction, Fault>)
        ensures
            final(self)@ == on_poll_result(
                old(self)@,
                poll_hit(old(self)@.stage, table.deep_view()),
            ).0,
            r == on_poll_result(old(self)@, poll_hit(old(self)@.stage, table.deep_view())).1,
            r is Err ==> final(self)@ == old(self)@,
    {
        match self.phase {
            Phase::Polling(_) => {},
            _ => {
                return Err(Fault::OutOfTurn);
            },
        }
        match table {
            Some(t) => match find_mount(t, self.pending.as_str()) {
                Some(i) => self.conclude_poll(Some(&t[i])),
                None => self.conclude_poll(None),
            },
            None => self.conclude_poll(None),
        }
    }

    /// Feeds one input to the monitor and returns what to do next. An input
    /// that is out of turn, an event from an unknown watch and an event that
    /// is neither a creation nor a deletion are answered with a fault and
    /// leave the monitor unchanged.
    pub fn step(&mut self, input: Input) -> (r: Result<Reaction, Fault>)
        ensures
            final(self)@ == step(old(self)@, input@).0,
            r == step(old(self)@, input@).1,
            r is Err ==> final(self)@ == old(self)@,
            r is Ok <==> in_turn(old(self)@.stage, input@) && !from_unknown_watch(
                old(self)@,
                input@,
            ) && !of_unknown_action(old(self)@, input@),
            r == Err::<Reaction, Fault>(Fault::OutOfTurn) <==> !in_turn(old(self)@.stage, input@),
            r == Err::<Reaction, Fault>(Fault::UnknownAction) <==> of_unknown_action(
                old(self)@,
                input@,
            ),
            r matches Err(Fault::UnknownWatch(_)) <==> from_unknown_watch(old(self)@, input@),
            r matches Err(Fault::UnknownWatch(w)) ==> input@ matches Feed::Event(ev) && ev.origin
                == w,
    {
        match input {
            Input::Event(event) => self.route_event(&event),
            Input::Waited => self.resume(),
            Input::MountTable(table) => self.take_poll(Some(&table)),
            Input::QueryFailed => self.take_poll(None),
        }
    }
}

} // verus!
