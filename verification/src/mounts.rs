//! Mount-table records and the search for the record of a mount directory.

use crate::search::{first_index, is_first, lemma_first_index_absent, lemma_first_index_found};
use crate::text::{path_ends_with, path_has_tail};
use vstd::prelude::*;

verus! {

/// One active mount as the mount table lists it: the device path that is
/// mounted and the directory it is mounted at.
#[derive(Clone, Debug, PartialEq, Eq)]
pub struct MountRecord {
    pub source: String,
    pub target: String,
}

/// The mathematical form of a [`MountRecord`].
pub struct Mount {
    pub source: Seq<char>,
    pub target: Seq<char>,
}

impl View for MountRecord {
    type V = Mount;

    open spec fn view(&self) -> Mount {
        Mount { source: self.source@, target: self.target@ }
    }
}

impl DeepView for MountRecord {
    type V = Mount;

    open spec fn deep_view(&self) -> Mount {
        self@
    }
}

/// Selects the records whose target path ends with the directory `name`.
pub open spec fn mounted_at(name: Seq<char>) -> spec_fn(Mount) -> bool {
    |m: Mount| path_ends_with(m.target, name)
}

/// The first record of `table` whose target path ends with `name`.
pub open spec fn mount_of(table: Seq<Mount>, name: Seq<char>) -> Option<Mount> {
    match first_index(table, mounted_at(name)) {
        Some(i) => Some(table[i]),
        None => None,
    }
}

/// Searches the table, in order, for a record whose target path ends with
/// `name`, and returns the position of the first one.
pub fn find_mount(table: &Vec<MountRecord>, name: &str) -> (hit: Option<usize>)
    ensures
        match hit {
            Some(i) => first_index(table.deep_view(), mounted_at(name@)) == Some(i as int)
                && is_first(table.deep_view(), mounted_at(name@), i as int),
            None => first_index(table.deep_view(), mounted_at(name@)) is None,
        },
        hit matches Some(i) ==> mount_of(table.deep_view(), name@) == Some(table@[i as int]@),
        hit is None ==> mount_of(table.deep_view(), name@) is None,
{
    let mut i: usize = 0;
    while i < table.len()
        invariant
            i <= table.len(),
            forall|j: int| 0 <= j < i ==> !mounted_at(name@)(#[trigger] table.deep_view()[j]),
        decreases table.len() - i,
    {
        if path_has_tail(table[i].target.as_str(), name) {
            proof {
                lemma_first_index_found(table.deep_view(), mounted_at(name@), i as int);
            }
            return Some(i);
        }
        i += 1;
    }
    proof {
        lemma_first_index_absent(table.deep_view(), mounted_at(name@));
    }
    None
}

} // verus!
