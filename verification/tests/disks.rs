use statusmon::disks::{
    Action, Diagnostic, DiskMon, Fault, Input, Phase, Reaction, RETRY_COUNT, RETRY_MILLIS,
    SETTLE_MILLIS,
};
use statusmon::events::{EventKind, RawEvent};
use statusmon::mounts::MountRecord;

const DEV: i32 = 1;
const MNT: i32 = 2;

fn pair(name: &str, path: Option<&str>) -> (String, Option<String>) {
    (name.to_string(), path.map(|p| p.to_string()))
}

fn event(origin: i32, action: EventKind, name: &str) -> Input {
    Input::Event(RawEvent { origin, action: Some(action), name: Some(name.to_string()) })
}

fn rec(source: &str, target: &str) -> MountRecord {
    MountRecord { source: source.to_string(), target: target.to_string() }
}

fn plain(action: Action) -> Result<Reaction, Fault> {
    Ok(Reaction { action, note: None })
}

fn noted(action: Action, note: Diagnostic) -> Result<Reaction, Fault> {
    Ok(Reaction { action, note: Some(note) })
}

/// Serves a resolution as a caller would, handing out `polls` in order, and
/// returns the reactions seen until the monitor is idle again.
fn serve(mon: &mut DiskMon, first: Reaction, polls: &[Option<Vec<MountRecord>>]) -> Vec<Reaction> {
    let mut seen = vec![first];
    let mut next = 0;
    let mut current = first;
    loop {
        let input = match current.action {
            Action::Wait(_) => Input::Waited,
            Action::ReadMountTable => {
                let poll = polls[next].clone();
                next += 1;
                match poll {
                    Some(table) => Input::MountTable(table),
                    None => Input::QueryFailed,
                }
            }
            Action::Emit | Action::Skip => return seen,
        };
        current = mon.step(input).unwrap();
        seen.push(current);
    }
}

#[test]
fn constants_keep_the_documented_timing() {
    assert_eq!(RETRY_COUNT, 10);
    assert_eq!(SETTLE_MILLIS, 100);
    assert_eq!(RETRY_MILLIS, 100);
}

#[test]
fn new_monitor_is_idle_and_empty() {
    let mon = DiskMon::new(DEV, MNT);
    assert_eq!(mon.phase(), Phase::Idle);
    assert!(mon.drives().is_empty());
    assert_eq!(mon.snapshot(), None);
}

#[test]
fn device_created_is_registered_and_emitted() {
    let mut mon = DiskMon::new(DEV, MNT);
    assert_eq!(mon.step(event(DEV, EventKind::Created, "sda1")), plain(Action::Emit));
    assert_eq!(mon.snapshot(), Some(vec![pair("sda1", None)]));
    assert_eq!(mon.phase(), Phase::Idle);
}

#[test]
fn device_deleted_removes_the_entry() {
    let mut mon = DiskMon::new(DEV, MNT);
    mon.step(event(DEV, EventKind::Created, "sda1")).unwrap();
    mon.step(event(DEV, EventKind::Created, "sdb1")).unwrap();
    assert_eq!(mon.step(event(DEV, EventKind::Deleted, "sda1")), plain(Action::Emit));
    assert_eq!(mon.snapshot(), Some(vec![pair("sdb1", None)]));
    assert_eq!(mon.step(event(DEV, EventKind::Deleted, "sdb1")), plain(Action::Emit));
    assert_eq!(mon.snapshot(), None);
}

#[test]
fn unclassified_device_events_are_skipped() {
    let mut mon = DiskMon::new(DEV, MNT);
    assert_eq!(mon.step(event(DEV, EventKind::Created, "sr0")), plain(Action::Skip));
    assert_eq!(mon.step(event(DEV, EventKind::Created, "loop3")), plain(Action::Skip));
    assert_eq!(mon.step(event(DEV, EventKind::Deleted, "loop3")), plain(Action::Skip));
    assert_eq!(mon.step(event(DEV, EventKind::Created, "")), plain(Action::Skip));
    assert_eq!(mon.snapshot(), None);
    mon.step(event(DEV, EventKind::Created, "sda1")).unwrap();
    assert_eq!(mon.step(event(DEV, EventKind::Created, "sr0")), plain(Action::Skip));
    assert_eq!(mon.snapshot(), Some(vec![pair("sda1", None)]));
}

#[test]
fn unnamed_event_is_skipped_with_diagnostic() {
    let mut mon = DiskMon::new(DEV, MNT);
    let ev = RawEvent { origin: DEV, action: Some(EventKind::Created), name: None };
    assert_eq!(mon.step(Input::Event(ev)), noted(Action::Skip, Diagnostic::UnnamedEvent));
    let ev = RawEvent { origin: 99, action: None, name: None };
    assert_eq!(mon.step(Input::Event(ev)), noted(Action::Skip, Diagnostic::UnnamedEvent));
    assert_eq!(mon.snapshot(), None);
}

#[test]
fn flags_give_the_action_when_exactly_one_is_set() {
    assert_eq!(EventKind::from_flags(true, false), Some(EventKind::Created));
    assert_eq!(EventKind::from_flags(false, true), Some(EventKind::Deleted));
    assert_eq!(EventKind::from_flags(false, false), None);
    assert_eq!(EventKind::from_flags(true, true), None);
}

#[test]
fn event_without_action_is_a_fault() {
    let mut mon = DiskMon::new(DEV, MNT);
    mon.step(event(DEV, EventKind::Created, "sda1")).unwrap();
    let odd = |origin: i32, name: &str| {
        Input::Event(RawEvent { origin, action: None, name: Some(name.to_string()) })
    };
    assert_eq!(mon.step(odd(MNT, "DISK")), Err(Fault::UnknownAction));
    assert_eq!(mon.step(odd(DEV, "sda1")), Err(Fault::UnknownAction));
    assert_eq!(mon.step(odd(DEV, "sdb1")), Err(Fault::UnknownAction));
    assert_eq!(mon.step(odd(DEV, "sr0")), plain(Action::Skip));
    assert_eq!(mon.step(odd(9, "sda1")), Err(Fault::UnknownWatch(9)));
    assert_eq!(mon.snapshot(), Some(vec![pair("sda1", None)]));
    assert_eq!(mon.phase(), Phase::Idle);
}

#[test]
fn event_from_unknown_watch_is_a_fault() {
    let mut mon = DiskMon::new(DEV, MNT);
    mon.step(event(DEV, EventKind::Created, "sda1")).unwrap();
    assert_eq!(mon.step(event(7, EventKind::Created, "sdb1")), Err(Fault::UnknownWatch(7)));
    assert_eq!(mon.step(event(-1, EventKind::Deleted, "sda1")), Err(Fault::UnknownWatch(-1)));
    assert_eq!(mon.snapshot(), Some(vec![pair("sda1", None)]));
    assert_eq!(mon.phase(), Phase::Idle);
}

#[test]
fn mount_watch_is_checked_before_device_watch() {
    let mut mon = DiskMon::new(5, 5);
    assert_eq!(mon.step(event(5, EventKind::Created, "sda1")), plain(Action::Wait(100)));
    assert_eq!(mon.phase(), Phase::Settling);
    assert_eq!(mon.snapshot(), None);
}

#[test]
fn inputs_out_of_turn_are_faults() {
    let mut mon = DiskMon::new(DEV, MNT);
    assert_eq!(mon.step(Input::Waited), Err(Fault::OutOfTurn));
    assert_eq!(mon.step(Input::QueryFailed), Err(Fault::OutOfTurn));
    assert_eq!(mon.step(Input::MountTable(vec![])), Err(Fault::OutOfTurn));
    assert_eq!(mon.phase(), Phase::Idle);

    mon.step(event(MNT, EventKind::Created, "DISK")).unwrap();
    assert_eq!(mon.phase(), Phase::Settling);
    assert_eq!(mon.step(event(DEV, EventKind::Created, "sda1")), Err(Fault::OutOfTurn));
    assert_eq!(mon.step(Input::QueryFailed), Err(Fault::OutOfTurn));
    assert_eq!(mon.phase(), Phase::Settling);
    assert_eq!(mon.snapshot(), None);

    mon.step(Input::Waited).unwrap();
    assert_eq!(mon.phase(), Phase::Polling(1));
    assert_eq!(mon.step(Input::Waited), Err(Fault::OutOfTurn));
    assert_eq!(mon.step(event(MNT, EventKind::Deleted, "DISK")), Err(Fault::OutOfTurn));
    assert_eq!(mon.phase(), Phase::Polling(1));

    mon.step(Input::QueryFailed).unwrap();
    assert_eq!(mon.phase(), Phase::Backoff(1));
    assert_eq!(mon.step(Input::MountTable(vec![])), Err(Fault::OutOfTurn));
    assert_eq!(mon.step(event(DEV, EventKind::Created, "sda1")), Err(Fault::OutOfTurn));
    assert_eq!(mon.phase(), Phase::Backoff(1));
}

#[test]
fn mount_created_settles_then_polls() {
    let mut mon = DiskMon::new(DEV, MNT);
    mon.step(event(DEV, EventKind::Created, "sda1")).unwrap();
    assert_eq!(
        mon.step(event(MNT, EventKind::Created, "DISK")),
        plain(Action::Wait(SETTLE_MILLIS))
    );
    assert_eq!(mon.phase(), Phase::Settling);
    assert_eq!(mon.step(Input::Waited), plain(Action::ReadMountTable));
    assert_eq!(mon.phase(), Phase::Polling(1));
    let table = vec![rec("proc", "/proc"), rec("/dev/sda1", "/run/media/u/DISK")];
    assert_eq!(mon.step(Input::MountTable(table)), plain(Action::Emit));
    assert_eq!(mon.phase(), Phase::Idle);
    assert_eq!(mon.snapshot(), Some(vec![pair("sda1", Some("/run/media/u/DISK"))]));
}

#[test]
fn mount_found_on_third_poll() {
    let mut mon = DiskMon::new(DEV, MNT);
    mon.step(event(DEV, EventKind::Created, "sda1")).unwrap();
    let first = mon.step(event(MNT, EventKind::Created, "DISK")).unwrap();
    let polls = vec![
        Some(vec![]),
        Some(vec![]),
        Some(vec![rec("/dev/sda1", "/run/media/u/DISK")]),
    ];
    let seen = serve(&mut mon, first, &polls);
    let actions: Vec<Action> = seen.iter().map(|r| r.action).collect();
    assert_eq!(
        actions,
        vec![
            Action::Wait(100),
            Action::ReadMountTable,
            Action::Wait(100),
            Action::ReadMountTable,
            Action::Wait(100),
            Action::ReadMountTable,
            Action::Emit
        ]
    );
    let notes: Vec<Option<Diagnostic>> = seen.iter().map(|r| r.note).collect();
    assert_eq!(
        notes,
        vec![
            None,
            None,
            Some(Diagnostic::MountNotFound),
            None,
            Some(Diagnostic::MountNotFound),
            None,
            None
        ]
    );
    assert_eq!(mon.phase(), Phase::Idle);
    assert_eq!(mon.snapshot(), Some(vec![pair("sda1", Some("/run/media/u/DISK"))]));
}

#[test]
fn mount_never_found_gives_up_after_ten_polls() {
    let mut mon = DiskMon::new(DEV, MNT);
    mon.step(event(DEV, EventKind::Created, "sdb1")).unwrap();
    let first = mon.step(event(MNT, EventKind::Created, "DISK")).unwrap();
    let polls: Vec<Option<Vec<MountRecord>>> =
        (0..10).map(|_| Some(vec![rec("/dev/sda2", "/home")])).collect();
    let seen = serve(&mut mon, first, &polls);
    let reads = seen.iter().filter(|r| r.action == Action::ReadMountTable).count();
    let waits = seen.iter().filter(|r| r.action == Action::Wait(100)).count();
    let misses = seen.iter().filter(|r| r.note == Some(Diagnostic::MountNotFound)).count();
    assert_eq!(reads, 10);
    assert_eq!(waits, 11);
    assert_eq!(misses, 10);
    assert_eq!(seen.len(), 22);
    assert_eq!(seen.last(), Some(&Reaction { action: Action::Emit, note: None }));
    assert_eq!(mon.phase(), Phase::Idle);
    assert_eq!(mon.snapshot(), Some(vec![pair("sdb1", None)]));
}

#[test]
fn mount_found_on_the_tenth_poll_is_still_applied() {
    let mut mon = DiskMon::new(DEV, MNT);
    mon.step(event(DEV, EventKind::Created, "sda1")).unwrap();
    let first = mon.step(event(MNT, EventKind::Created, "DISK")).unwrap();
    let mut polls: Vec<Option<Vec<MountRecord>>> = (0..9).map(|_| Some(vec![])).collect();
    polls.push(Some(vec![rec("/dev/sda1", "/run/media/u/DISK")]));
    let seen = serve(&mut mon, first, &polls);
    assert_eq!(seen.len(), 21);
    assert_eq!(seen.last(), Some(&Reaction { action: Action::Emit, note: None }));
    assert_eq!(mon.snapshot(), Some(vec![pair("sda1", Some("/run/media/u/DISK"))]));
}

#[test]
fn phases_count_the_attempts() {
    let mut mon = DiskMon::new(DEV, MNT);
    mon.step(event(MNT, EventKind::Created, "DISK")).unwrap();
    mon.step(Input::Waited).unwrap();
    for attempt in 1..=10u8 {
        assert_eq!(mon.phase(), Phase::Polling(attempt));
        assert_eq!(
            mon.step(Input::MountTable(vec![])),
            noted(Action::Wait(RETRY_MILLIS), Diagnostic::MountNotFound)
        );
        assert_eq!(mon.phase(), Phase::Backoff(attempt));
        let next = mon.step(Input::Waited);
        if attempt < 10 {
            assert_eq!(next, plain(Action::ReadMountTable));
        } else {
            assert_eq!(next, plain(Action::Emit));
        }
    }
    assert_eq!(mon.phase(), Phase::Idle);
}

#[test]
fn failed_query_counts_as_an_attempt() {
    let mut mon = DiskMon::new(DEV, MNT);
    mon.step(event(DEV, EventKind::Created, "sda1")).unwrap();
    let first = mon.step(event(MNT, EventKind::Created, "DISK")).unwrap();
    let polls: Vec<Option<Vec<MountRecord>>> = (0..10).map(|_| None).collect();
    let seen = serve(&mut mon, first, &polls);
    assert_eq!(seen.len(), 22);
    assert_eq!(seen.iter().filter(|r| r.note == Some(Diagnostic::MountNotFound)).count(), 10);
    assert_eq!(mon.snapshot(), Some(vec![pair("sda1", None)]));

    let first = mon.step(event(MNT, EventKind::Created, "DISK")).unwrap();
    let polls = vec![None, Some(vec![rec("/dev/sda1", "/run/media/u/DISK")])];
    serve(&mut mon, first, &polls);
    assert_eq!(mon.snapshot(), Some(vec![pair("sda1", Some("/run/media/u/DISK"))]));
}

#[test]
fn mount_for_unknown_device_is_given_up_without_retry() {
    let mut mon = DiskMon::new(DEV, MNT);
    mon.step(event(DEV, EventKind::Created, "sda1")).unwrap();
    mon.step(event(MNT, EventKind::Created, "DISK")).unwrap();
    mon.step(Input::Waited).unwrap();
    let table = vec![rec("/dev/sdc1", "/run/media/u/DISK")];
    assert_eq!(
        mon.step(Input::MountTable(table)),
        noted(Action::Emit, Diagnostic::DriveNotFound)
    );
    assert_eq!(mon.phase(), Phase::Idle);
    assert_eq!(mon.snapshot(), Some(vec![pair("sda1", None)]));
}

#[test]
fn resolution_uses_the_first_matching_record() {
    let mut mon = DiskMon::new(DEV, MNT);
    mon.step(event(DEV, EventKind::Created, "sda1")).unwrap();
    mon.step(event(DEV, EventKind::Created, "sdb1")).unwrap();
    mon.step(event(MNT, EventKind::Created, "DISK")).unwrap();
    mon.step(Input::Waited).unwrap();
    let table = vec![
        rec("/dev/sda2", "/"),
        rec("/dev/sdb1", "/run/media/u/DISK"),
        rec("/dev/sda1", "/mnt/DISK"),
    ];
    assert_eq!(mon.step(Input::MountTable(table)), plain(Action::Emit));
    assert_eq!(
        mon.snapshot(),
        Some(vec![pair("sda1", None), pair("sdb1", Some("/run/media/u/DISK"))])
    );
}

#[test]
fn resolution_updates_exactly_one_entry() {
    let mut mon = DiskMon::new(DEV, MNT);
    for name in ["sda1", "sdb1", "sdb1", "sdc1"] {
        mon.step(event(DEV, EventKind::Created, name)).unwrap();
    }
    let first = mon.step(event(MNT, EventKind::Created, "A")).unwrap();
    serve(&mut mon, first, &[Some(vec![rec("/dev/sdc1", "/run/media/u/A")])]);
    let first = mon.step(event(MNT, EventKind::Created, "B")).unwrap();
    serve(&mut mon, first, &[Some(vec![]), Some(vec![rec("/dev/sdb1", "/run/media/u/B")])]);
    assert_eq!(
        mon.snapshot(),
        Some(vec![
            pair("sda1", None),
            pair("sdb1", Some("/run/media/u/B")),
            pair("sdb1", None),
            pair("sdc1", Some("/run/media/u/A"))
        ])
    );
}

#[test]
fn mount_deleted_unmounts_and_emits() {
    let mut mon = DiskMon::new(DEV, MNT);
    mon.step(event(DEV, EventKind::Created, "sda1")).unwrap();
    mon.step(event(DEV, EventKind::Created, "sdb1")).unwrap();
    let first = mon.step(event(MNT, EventKind::Created, "DISK")).unwrap();
    serve(&mut mon, first, &[Some(vec![rec("/dev/sda1", "/run/media/u/DISK")])]);
    let first = mon.step(event(MNT, EventKind::Created, "OTHER")).unwrap();
    serve(&mut mon, first, &[Some(vec![rec("/dev/sdb1", "/run/media/u/OTHER")])]);
    assert_eq!(mon.step(event(MNT, EventKind::Deleted, "DISK")), plain(Action::Emit));
    assert_eq!(
        mon.snapshot(),
        Some(vec![pair("sda1", None), pair("sdb1", Some("/run/media/u/OTHER"))])
    );
    assert_eq!(mon.step(event(MNT, EventKind::Deleted, "NOSUCH")), plain(Action::Emit));
    assert_eq!(
        mon.snapshot(),
        Some(vec![pair("sda1", None), pair("sdb1", Some("/run/media/u/OTHER"))])
    );
    assert_eq!(mon.drives().len(), 2);
}

#[test]
fn mount_events_do_not_classify_names() {
    let mut mon = DiskMon::new(DEV, MNT);
    assert_eq!(mon.step(event(MNT, EventKind::Deleted, "sr0")), plain(Action::Emit));
    assert_eq!(mon.step(event(MNT, EventKind::Created, "loop3")), plain(Action::Wait(100)));
}

#[test]
fn round_trip_leaves_the_registry_empty() {
    let mut mon = DiskMon::new(DEV, MNT);
    assert_eq!(mon.step(event(DEV, EventKind::Created, "sda1")), plain(Action::Emit));
    let first = mon.step(event(MNT, EventKind::Created, "DISK")).unwrap();
    let seen = serve(&mut mon, first, &[Some(vec![rec("/dev/sda1", "/run/media/u/DISK")])]);
    assert_eq!(seen.last().map(|r| r.action), Some(Action::Emit));
    assert_eq!(mon.snapshot(), Some(vec![pair("sda1", Some("/run/media/u/DISK"))]));
    assert_eq!(mon.step(event(MNT, EventKind::Deleted, "DISK")), plain(Action::Emit));
    assert_eq!(mon.snapshot(), Some(vec![pair("sda1", None)]));
    assert_eq!(mon.step(event(DEV, EventKind::Deleted, "sda1")), plain(Action::Emit));
    assert_eq!(mon.snapshot(), None);
    assert!(mon.drives().is_empty());
    assert_eq!(mon.phase(), Phase::Idle);
}

#[test]
fn scenario_mount_appears_on_third_poll() {
    let mut mon = DiskMon::new(DEV, MNT);
    mon.step(event(DEV, EventKind::Created, "sda1")).unwrap();
    let first = mon.step(event(MNT, EventKind::Created, "DISK")).unwrap();
    let table = vec![rec("/dev/sda1", "/run/media/u/DISK")];
    let polls = vec![Some(vec![]), Some(vec![]), Some(table)];
    serve(&mut mon, first, &polls);
    assert_eq!(mon.snapshot(), Some(vec![pair("sda1", Some("/run/media/u/DISK"))]));
}

#[test]
fn scenario_mount_never_appears() {
    let mut mon = DiskMon::new(DEV, MNT);
    mon.step(event(DEV, EventKind::Created, "sdb1")).unwrap();
    let first = mon.step(event(MNT, EventKind::Created, "DISK")).unwrap();
    let polls: Vec<Option<Vec<MountRecord>>> = (0..10).map(|_| Some(vec![])).collect();
    let seen = serve(&mut mon, first, &polls);
    assert!(seen.iter().any(|r| r.note == Some(Diagnostic::MountNotFound)));
    assert_eq!(mon.snapshot(), Some(vec![pair("sdb1", None)]));
    assert_eq!(mon.step(event(DEV, EventKind::Created, "sdc1")), plain(Action::Emit));
}

#[test]
fn route_event_resume_and_take_poll_match_step() {
    let mut mon = DiskMon::new(DEV, MNT);
    let ev = RawEvent {
        origin: DEV,
        action: Some(EventKind::Created),
        name: Some("sda1".to_string()),
    };
    assert_eq!(mon.route_event(&ev), plain(Action::Emit));
    let ev = RawEvent {
        origin: MNT,
        action: Some(EventKind::Created),
        name: Some("DISK".to_string()),
    };
    assert_eq!(mon.route_event(&ev), plain(Action::Wait(100)));
    assert_eq!(mon.route_event(&ev), Err(Fault::OutOfTurn));
    assert_eq!(mon.take_poll(None), Err(Fault::OutOfTurn));
    assert_eq!(mon.resume(), plain(Action::ReadMountTable));
    assert_eq!(mon.resume(), Err(Fault::OutOfTurn));
    assert_eq!(mon.take_poll(None), noted(Action::Wait(100), Diagnostic::MountNotFound));
    assert_eq!(mon.resume(), plain(Action::ReadMountTable));
    let table = vec![rec("/dev/sda1", "/run/media/u/DISK")];
    assert_eq!(mon.take_poll(Some(&table)), plain(Action::Emit));
    assert_eq!(mon.snapshot(), Some(vec![pair("sda1", Some("/run/media/u/DISK"))]));
}

#[test]
fn conclude_poll_applies_the_given_record() {
    let mut mon = DiskMon::new(DEV, MNT);
    mon.step(event(DEV, EventKind::Created, "sda1")).unwrap();
    let hit = rec("/dev/sda1", "/somewhere/else");
    assert_eq!(mon.conclude_poll(Some(&hit)), Err(Fault::OutOfTurn));
    assert_eq!(mon.snapshot(), Some(vec![pair("sda1", None)]));
    mon.step(event(MNT, EventKind::Created, "DISK")).unwrap();
    mon.step(Input::Waited).unwrap();
    assert_eq!(mon.conclude_poll(None), noted(Action::Wait(100), Diagnostic::MountNotFound));
    mon.step(Input::Waited).unwrap();
    assert_eq!(mon.conclude_poll(Some(&hit)), plain(Action::Emit));
    assert_eq!(mon.snapshot(), Some(vec![pair("sda1", Some("/somewhere/else"))]));
    assert_eq!(mon.phase(), Phase::Idle);
}
