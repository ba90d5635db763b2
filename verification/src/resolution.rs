//! Whole mount resolutions: what the monitor has done once a caller that
//! follows its requests has carried a resolution through.

use crate::disks::{hit_in, step, Feed, Monitor, Stage, RETRY_COUNT};
use crate::mounts::Mount;
use crate::registry::{backs, with_mount, Drive};
use crate::search::{first_index, is_first, lemma_first_index};
use vstd::prelude::*;

verus! {

/// The input that reports a poll: the table, or the failed query.
pub open spec fn report(poll: Option<Seq<Mount>>) -> Feed {
    match poll {
        Some(table) => Feed::MountTable(table),
        None => Feed::QueryFailed,
    }
}

/// The monitor after a caller has served it for as long as it asks for
/// something: each wait is answered when it is over, and each request for
/// the mount table is answered with the next of `polls`. Serving ends when
/// the monitor is idle again, or when the polls run out. `None` if the
/// monitor answers one of these inputs with a fault.
pub open spec fn served(m: Monitor, polls: Seq<Option<Seq<Mount>>>) -> Option<Monitor>
    decreases polls.len(), (if m.stage is Polling { 0nat } else { 1nat }),
{
    if m.stage is Idle {
        Some(m)
    } else if m.stage is Polling {
        if polls.len() == 0 {
            Some(m)
        } else {
            match step(m, report(polls[0])).1 {
                Ok(_) => served(step(m, report(polls[0])).0, polls.drop_first()),
                Err(_) => None,
            }
        }
    } else {
        match step(m, Feed::Waited).1 {
            Ok(_) => if step(m, Feed::Waited).0.stage is Polling {
                served(step(m, Feed::Waited).0, polls)
            } else {
                Some(step(m, Feed::Waited).0)
            },
            Err(_) => None,
        }
    }
}

/// None of the first `n` polls has a record for the mount directory `name`.
pub open spec fn misses(polls: Seq<Option<Seq<Mount>>>, name: Seq<char>, n: int) -> bool {
    forall|j: int| 0 <= j < n && j < polls.len() ==> hit_in(#[trigger] polls[j], name) is None
}

/// `after` is `before` with the entry at `i` mounted at `target` and every
/// other entry untouched.
pub open spec fn only_mounted(
    before: Seq<Drive>,
    after: Seq<Drive>,
    i: int,
    target: Seq<char>,
) -> bool {
    &&& 0 <= i < before.len()
    &&& after.len() == before.len()
    &&& after[i].device_name == before[i].device_name
    &&& after[i].mount_path == Some(target)
    &&& forall|j: int| 0 <= j < before.len() && j != i ==> #[trigger] after[j] == before[j]
}

/// Polls that miss stay misses when the first of them is taken away.
proof fn lemma_misses_rest(polls: Seq<Option<Seq<Mount>>>, name: Seq<char>, n: int)
    requires
        polls.len() > 0,
        misses(polls, name, n + 1),
    ensures
        misses(polls.drop_first(), name, n),
{
    let rest = polls.drop_first();
    assert forall|j: int| 0 <= j < n && j < rest.len() implies hit_in(
        #[trigger] rest[j],
        name,
    ) is None by {
        assert(rest[j] == polls[j + 1]);
    }
}

/// From a pending poll on: the resolution ends with the first poll that
/// lists the mount, if the attempts left reach that far.
proof fn lemma_polling_finds(
    m: Monitor,
    name: Seq<char>,
    attempt: u8,
    polls: Seq<Option<Seq<Mount>>>,
    k: int,
)
    requires
        m.stage == Stage::Polling(name, attempt),
        1 <= k <= polls.len(),
        attempt + k - 1 <= RETRY_COUNT,
        misses(polls, name, k - 1),
        hit_in(polls[k - 1], name) is Some,
    ensures
        served(m, polls) == Some(
            m.holding(
                with_mount(
                    m.drives,
                    hit_in(polls[k - 1], name).unwrap().source,
                    hit_in(polls[k - 1], name).unwrap().target,
                ),
            ).at(Stage::Idle),
        ),
    decreases k,
{
    reveal_with_fuel(served, 3);
    if k > 1 {
        assert(hit_in(polls[0], name) is None);
        let paused = step(m, report(polls[0])).0;
        assert(paused == m.at(Stage::Backoff(name, attempt)));
        let next = step(paused, Feed::Waited).0;
        assert(next == m.at(Stage::Polling(name, (attempt + 1) as u8)));
        let rest = polls.drop_first();
        lemma_misses_rest(polls, name, k - 2);
        assert(rest[k - 2] == polls[k - 1]);
        lemma_polling_finds(next, name, (attempt + 1) as u8, rest, k - 1);
    }
}

/// From a pending poll on: the resolution is given up, registry untouched,
/// if every poll up to the last attempt misses.
proof fn lemma_polling_gives_up(
    m: Monitor,
    name: Seq<char>,
    attempt: u8,
    polls: Seq<Option<Seq<Mount>>>,
)
    requires
        m.stage == Stage::Polling(name, attempt),
        1 <= attempt <= RETRY_COUNT,
        polls.len() >= RETRY_COUNT - attempt + 1,
        misses(polls, name, RETRY_COUNT - attempt + 1),
    ensures
        served(m, polls) == Some(m.at(Stage::Idle)),
    decreases RETRY_COUNT - attempt,
{
    reveal_with_fuel(served, 3);
    assert(hit_in(polls[0], name) is None);
    let paused = step(m, report(polls[0])).0;
    assert(paused == m.at(Stage::Backoff(name, attempt)));
    if attempt < RETRY_COUNT {
        let next = step(paused, Feed::Waited).0;
        assert(next == m.at(Stage::Polling(name, (attempt + 1) as u8)));
        lemma_misses_rest(polls, name, RETRY_COUNT - attempt);
        lemma_polling_gives_up(next, name, (attempt + 1) as u8, polls.drop_first());
    }
}

/// A resolution whose poll number `k`, counted from 1 and at most
/// [`RETRY_COUNT`], is the first to list a mount for the directory ends
/// there, without a fault and with the monitor idle. The record found is
/// applied to the registry: if some entry's device name is a suffix of the
/// record's source, the first such entry, and only that one, is mounted at
/// the record's target; otherwise the registry is unchanged.
pub proof fn lemma_resolution_finds_mount(
    m: Monitor,
    name: Seq<char>,
    polls: Seq<Option<Seq<Mount>>>,
    k: int,
)
    requires
        m.stage == Stage::Settling(name),
        1 <= k <= RETRY_COUNT,
        k <= polls.len(),
        misses(polls, name, k - 1),
        hit_in(polls[k - 1], name) is Some,
    ensures
        served(m, polls) is Some,
        served(m, polls).unwrap().stage is Idle,
        served(m, polls).unwrap().drives == with_mount(
            m.drives,
            hit_in(polls[k - 1], name).unwrap().source,
            hit_in(polls[k - 1], name).unwrap().target,
        ),
        match first_index(m.drives, backs(hit_in(polls[k - 1], name).unwrap().source)) {
            Some(i) => is_first(m.drives, backs(hit_in(polls[k - 1], name).unwrap().source), i)
                && only_mounted(
                m.drives,
                served(m, polls).unwrap().drives,
                i,
                hit_in(polls[k - 1], name).unwrap().target,
            ),
            None => served(m, polls).unwrap().drives == m.drives,
        },
{
    reveal_with_fuel(served, 2);
    let first = step(m, Feed::Waited).0;
    assert(first == m.at(Stage::Polling(name, 1)));
    lemma_polling_finds(first, name, 1, polls, k);
    lemma_first_index(m.drives, backs(hit_in(polls[k - 1], name).unwrap().source));
}

/// A resolution in which none of the [`RETRY_COUNT`] polls lists a mount
/// for the directory ends after the last of them, without a fault, with
/// the monitor idle and the registry unchanged.
pub proof fn lemma_resolution_gives_up(
    m: Monitor,
    name: Seq<char>,
    polls: Seq<Option<Seq<Mount>>>,
)
    requires
        m.stage == Stage::Settling(name),
        polls.len() >= RETRY_COUNT,
        misses(polls, name, RETRY_COUNT as int),
    ensures
        served(m, polls) == Some(m.at(Stage::Idle)),
        served(m, polls).unwrap().drives == m.drives,
{
    reveal_with_fuel(served, 2);
    let first = step(m, Feed::Waited).0;
    assert(first == m.at(Stage::Polling(name, 1)));
    lemma_polling_gives_up(first, name, 1, polls);
}

} // verus!
