//! The drive registry: the ordered list of removable block devices that are
//! currently present, each with the path it is mounted at, if any.
//!
//! The registry is a plain list in insertion order. Entries are found by
//! linear scan; nothing stops one device name from being listed twice.

use crate::events::EventKind;
use crate::search::{first_index, is_first, lemma_first_index_absent, lemma_first_index_found};
use crate::text::{
    ends_with, path_file_name, path_last_component, text_ends_with, text_eq,
};
use vstd::prelude::*;
use vstd::string::StrSliceExecFns;

verus! {

/// One present device and where it is mounted.
#[derive(Clone, Debug, PartialEq, Eq)]
pub struct DriveEntry {
    pub device_name: String,
    pub mount_path: Option<String>,
}

/// The mathematical form of a [`DriveEntry`].
pub struct Drive {
    pub device_name: Seq<char>,
    pub mount_path: Option<Seq<char>>,
}

impl View for DriveEntry {
    type V = Drive;

    open spec fn view(&self) -> Drive {
        Drive { device_name: self.device_name@, mount_path: self.mount_path.deep_view() }
    }
}

/// The ASCII digits `0` to `9`.
pub open spec fn is_ascii_digit(c: char) -> bool {
    '0' <= c && c <= '9'
}

/// The classification rule: a device name counts as a removable disk
/// partition when it starts with `sd` and ends in an ASCII digit.
pub open spec fn accepts(name: Seq<char>) -> bool {
    &&& name.len() >= 2
    &&& name[0] == 's'
    &&& name[1] == 'd'
    &&& is_ascii_digit(name.last())
}

/// Every listed device name passes the classification rule.
pub open spec fn all_accepted(drives: Seq<Drive>) -> bool {
    forall|i: int| 0 <= i < drives.len() ==> accepts(#[trigger] drives[i].device_name)
}

/// Selects the entries for the device called `name`.
pub open spec fn named(name: Seq<char>) -> spec_fn(Drive) -> bool {
    |d: Drive| d.device_name == name
}

/// Selects the entries whose device name is a suffix of the device path `source`.
pub open spec fn backs(source: Seq<char>) -> spec_fn(Drive) -> bool {
    |d: Drive| ends_with(source, d.device_name)
}

/// The entry is mounted at a path whose final component is `name`.
pub open spec fn mounted_under(d: Drive, name: Seq<char>) -> bool {
    d.mount_path matches Some(p) && path_file_name(p) == Some(name)
}

/// The list after a device called `name` appeared: an accepted name is
/// appended, unmounted; any other name changes nothing.
pub open spec fn with_device(drives: Seq<Drive>, name: Seq<char>) -> Seq<Drive> {
    if accepts(name) {
        drives.push(Drive { device_name: name, mount_path: None })
    } else {
        drives
    }
}

/// The list after the device called `name` went away: its first entry is
/// removed, if it has one.
pub open spec fn without_device(drives: Seq<Drive>, name: Seq<char>) -> Seq<Drive> {
    match first_index(drives, named(name)) {
        Some(i) => drives.remove(i),
        None => drives,
    }
}

/// The list after a mount of `source` at `target` was observed: the first
/// entry whose device name is a suffix of `source` now records `target`.
pub open spec fn with_mount(drives: Seq<Drive>, source: Seq<char>, target: Seq<char>) -> Seq<
    Drive,
> {
    match first_index(drives, backs(source)) {
        Some(i) => drives.update(
            i,
            Drive { device_name: drives[i].device_name, mount_path: Some(target) },
        ),
        None => drives,
    }
}

/// The registry after a device-directory event for `name`: names that fail
/// classification change nothing, whatever the event.
pub open spec fn after_device_event(drives: Seq<Drive>, name: Seq<char>, kind: EventKind) -> Seq<
    Drive,
> {
    if !accepts(name) {
        drives
    } else {
        match kind {
            EventKind::Created => with_device(drives, name),
            EventKind::Deleted => without_device(drives, name),
        }
    }
}

/// One entry after the mount directory `name` went away.
pub open spec fn released(d: Drive, name: Seq<char>) -> Drive {
    if mounted_under(d, name) {
        Drive { device_name: d.device_name, mount_path: None }
    } else {
        d
    }
}

/// The list after the mount directory `name` went away: every entry mounted
/// under that name is unmounted, and nothing else changes.
pub open spec fn without_mount(drives: Seq<Drive>, name: Seq<char>) -> Seq<Drive> {
    Seq::new(drives.len(), |i: int| released(drives[i], name))
}

/// The `(device name, mount path)` pairs of a list, in order.
pub open spec fn pairs(drives: Seq<Drive>) -> Seq<(Seq<char>, Option<Seq<char>>)> {
    Seq::new(drives.len(), |i: int| (drives[i].device_name, drives[i].mount_path))
}

impl DriveEntry {
    /// A freshly seen device: present, not mounted.
    pub fn new(device_name: String) -> (e: DriveEntry)
        ensures
            e@ == (Drive { device_name: device_name@, mount_path: None }),
    {
        DriveEntry { device_name, mount_path: None }
    }

    /// Forgets the mount path if the entry is mounted and `component`, the
    /// final component of that path, is `name`. Returns whether it did.
    pub fn release_if_named(&mut self, component: &Option<String>, name: &str) -> (cleared: bool)
        ensures
            cleared == (old(self).mount_path.is_some() && component.deep_view() == Some(name@)),
            final(self).device_name == old(self).device_name,
            final(self).mount_path == if cleared {
                None
            } else {
                old(self).mount_path
            },
    {
        if self.mount_path.is_none() {
            return false;
        }
        match component {
            Some(c) => {
                if text_eq(c.as_str(), name) {
                    self.mount_path = None;
                    true
                } else {
                    false
                }
            },
            None => false,
        }
    }
}

/// The ordered collection of present devices.
pub struct DriveRegistry {
    entries: Vec<DriveEntry>,
}

impl View for DriveRegistry {
    type V = Seq<Drive>;

    closed spec fn view(&self) -> Seq<Drive> {
        Seq::new(self.entries@.len(), |i: int| self.entries@[i]@)
    }
}

impl DriveRegistry {
    /// The registry at startup: empty.
    pub fn new() -> (r: DriveRegistry)
        ensures
            r@ == Seq::<Drive>::empty(),
    {
        let r = DriveRegistry { entries: Vec::new() };
        assert(r@ =~= Seq::<Drive>::empty());
        r
    }

    /// Number of entries.
    pub fn len(&self) -> (n: usize)
        ensures
            n == self@.len(),
    {
        self.entries.len()
    }

    /// Whether no device is present.
    pub fn is_empty(&self) -> (b: bool)
        ensures
            b == (self@.len() == 0),
    {
        self.entries.len() == 0
    }

    /// The entry at position `i`, if there is one.
    pub fn get(&self, i: usize) -> (e: Option<&DriveEntry>)
        ensures
            match e {
                Some(entry) => i < self@.len() && entry@ == self@[i as int],
                None => i >= self@.len(),
            },
    {
        if i < self.entries.len() {
            Some(&self.entries[i])
        } else {
            None
        }
    }

    /// Applies the classification rule to a candidate device name.
    pub fn classify(name: &str) -> (accepted: bool)
        ensures
            accepted == accepts(name@),
    {
        let n: usize = name.unicode_len();
        if n < 2 {
            return false;
        }
        let last = name.get_char(n - 1);
        name.get_char(0) == 's' && name.get_char(1) == 'd' && '0' <= last && last <= '9'
    }

    /// A device node called `name` appeared. An accepted name is appended as
    /// an unmounted entry, without looking for an earlier entry of the same
    /// name; any other name is ignored. Returns whether the name was accepted.
    pub fn on_device_created(&mut self, name: &str) -> (accepted: bool)
        ensures
            accepted == accepts(name@),
            final(self)@ == with_device(old(self)@, name@),
            !accepts(name@) ==> final(self)@ == old(self)@,
            all_accepted(old(self)@) ==> all_accepted(final(self)@),
    {
        if !Self::classify(name) {
            return false;
        }
        self.entries.push(DriveEntry::new(name.to_owned()));
        assert(self@ =~= with_device(old(self)@, name@));
        true
    }

    /// The device node called `name` went away. The first entry of exactly
    /// that name is removed; without one nothing changes. Returns whether an
    /// entry was removed.
    pub fn on_device_deleted(&mut self, name: &str) -> (removed: bool)
        ensures
            removed == first_index(old(self)@, named(name@)).is_some(),
            final(self)@ == without_device(old(self)@, name@),
            all_accepted(old(self)@) ==> all_accepted(final(self)@),
    {
        let mut i: usize = 0;
        while i < self.entries.len()
            invariant
                i <= self.entries.len(),
                self.entries == old(self).entries,
                forall|j: int| 0 <= j < i ==> !named(name@)(#[trigger] self@[j]),
            decreases self.entries.len() - i,
        {
            if text_eq(self.entries[i].device_name.as_str(), name) {
                proof {
                    lemma_first_index_found(old(self)@, named(name@), i as int);
                }
                self.entries.remove(i);
                assert(self@ =~= old(self)@.remove(i as int));
                return true;
            }
            i += 1;
        }
        proof {
            lemma_first_index_absent(old(self)@, named(name@));
        }
        false
    }

    /// The mount directory called `name` went away. Every entry whose mount
    /// path has `name` as its final component becomes unmounted; entries
    /// mounted elsewhere, and entries that were not mounted, stay as they
    /// are. No entry is removed.
    pub fn on_mount_deleted(&mut self, name: &str)
        ensures
            final(self)@ == without_mount(old(self)@, name@),
            final(self)@.len() == old(self)@.len(),
            forall|i: int|
                0 <= i < old(self)@.len() && mounted_under(#[trigger] old(self)@[i], name@)
                    ==> final(self)@[i].mount_path is None && final(self)@[i].device_name == old(
                    self,
                )@[i].device_name,
            forall|i: int|
                0 <= i < old(self)@.len() && !mounted_under(#[trigger] old(self)@[i], name@)
                    ==> final(self)@[i] == old(self)@[i],
            all_accepted(old(self)@) ==> all_accepted(final(self)@),
    {
        let n: usize = self.entries.len();
        let mut i: usize = 0;
        while i < n
            invariant
                i <= n,
                n == self.entries@.len(),
                n == old(self).entries@.len(),
                forall|j: int| 0 <= j < i ==> #[trigger] self@[j] == released(old(self)@[j], name@),
                forall|j: int| i <= j < n ==> #[trigger] self.entries@[j] == old(self).entries@[j],
            decreases n - i,
        {
            let component = match &self.entries[i].mount_path {
                Some(path) => path_last_component(path.as_str()),
                None => None,
            };
            let ghost before = self@;
            self.entries[i].release_if_named(&component, name);
            assert forall|j: int| 0 <= j < i + 1 implies #[trigger] self@[j] == released(
                old(self)@[j],
                name@,
            ) by {
                if j < i {
                    assert(self@[j] == before[j]);
                }
            }
            i += 1;
        }
        assert(self@ =~= without_mount(old(self)@, name@));
    }

    /// A mount of the device path `source` at `target` was observed. The
    /// first entry whose device name is a suffix of `source` records `target`
    /// as its mount path; every other entry stays as it is. Without such an
    /// entry nothing changes. Returns whether an entry was found.
    pub fn assign_mount(&mut self, source: &str, target: &str) -> (found: bool)
        ensures
            found == first_index(old(self)@, backs(source@)).is_some(),
            final(self)@ == with_mount(old(self)@, source@, target@),
            final(self)@.len() == old(self)@.len(),
            !found ==> final(self)@ == old(self)@,
            found ==> {
                let i = first_index(old(self)@, backs(source@)).unwrap();
                &&& is_first(old(self)@, backs(source@), i)
                &&& final(self)@[i].device_name == old(self)@[i].device_name
                &&& final(self)@[i].mount_path == Some(target@)
                &&& forall|j: int|
                    0 <= j < old(self)@.len() && j != i ==> #[trigger] final(self)@[j] == old(
                        self,
                    )@[j]
            },
            all_accepted(old(self)@) ==> all_accepted(final(self)@),
    {
        let mut i: usize = 0;
        while i < self.entries.len()
            invariant
                i <= self.entries.len(),
                self.entries == old(self).entries,
                forall|j: int| 0 <= j < i ==> !backs(source@)(#[trigger] self@[j]),
            decreases self.entries.len() - i,
        {
            if text_ends_with(source, self.entries[i].device_name.as_str()) {
                proof {
                    lemma_first_index_found(old(self)@, backs(source@), i as int);
                }
                self.entries[i].mount_path = Some(target.to_owned());
                assert(self@ =~= with_mount(old(self)@, source@, target@));
                return true;
            }
            i += 1;
        }
        proof {
            lemma_first_index_absent(old(self)@, backs(source@));
        }
        false
    }

    /// What is handed to the emitter: the `(device name, mount path)` pairs
    /// in registry order, or `None` as the explicit "empty" signal when no
    /// device is present.
    pub fn snapshot(&self) -> (s: Option<Vec<(String, Option<String>)>>)
        ensures
            match s {
                None => self@.len() == 0,
                Some(v) => self@.len() > 0 && v.deep_view() == pairs(self@),
            },
    {
        if self.entries.len() == 0 {
            return None;
        }
        let mut out: Vec<(String, Option<String>)> = Vec::new();
        let mut i: usize = 0;
        while i < self.entries.len()
            invariant
                i <= self.entries.len(),
                out@.len() == i,
                forall|j: int|
                    0 <= j < i ==> (#[trigger] out@[j]).deep_view() == (
                        self@[j].device_name,
                        self@[j].mount_path,
                    ),
            decreases self.entries.len() - i,
        {
            let entry = &self.entries[i];
            let path = match &entry.mount_path {
                Some(p) => Some(p.clone()),
                None => None,
            };
            out.push((entry.device_name.clone(), path));
            i += 1;
        }
        assert(out.deep_view() =~= pairs(self@));
        Some(out)
    }
}

} // verus!
