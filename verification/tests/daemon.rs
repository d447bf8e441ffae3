use std::rc::Rc;

use omarchy_power_policy::daemon::{Daemon, Event, Task};
use omarchy_power_policy::epoch::{PropertyChange, Signal};

const UPOWER: &str = "org.freedesktop.UPower";
const LOGIND: &str = "org.freedesktop.login1";

type Lines = Vec<String>;

fn owner(name: &str) -> Event<Rc<()>> {
    Event::Signalled(Signal::Owner(Some(Ok(name.to_string()))))
}

fn changed(names: &[&str]) -> Event<Rc<()>> {
    Event::Signalled(Signal::Properties(Some(Ok(PropertyChange {
        interface: UPOWER.to_string(),
        changed: names.iter().map(|name| name.to_string()).collect(),
        invalidated: Vec::new(),
    }))))
}

fn feed(daemon: &mut Daemon<Rc<()>>, events: Vec<Event<Rc<()>>>) -> Lines {
    let mut log = Vec::new();
    for event in events {
        log.extend(daemon.complete(event).expect("the event belongs to the work"));
    }
    log
}

fn read(on_battery: bool, lid_closed: bool) -> Vec<Event<Rc<()>>> {
    vec![Event::Read(Ok(on_battery)), Event::Read(Ok(lid_closed))]
}

/// A daemon that watches after the given first reading, with the given inhibitor.
fn watching(dry_run: bool, inhibitor: &Rc<()>, reading: (bool, bool)) -> (Daemon<Rc<()>>, Lines) {
    let mut daemon = Daemon::new(dry_run);
    let mut log = feed(
        &mut daemon,
        vec![
            Event::Attached(Ok(())),
            Event::Inhibited(Ok(Rc::clone(inhibitor))),
            Event::Opened(Ok(())),
        ],
    );
    log.extend(feed(&mut daemon, read(reading.0, reading.1)));
    (daemon, log)
}

#[test]
fn a_run_starts_by_attaching_and_inhibiting() {
    let inhibitor = Rc::new(());
    let mut daemon = Daemon::new(false);
    assert_eq!(daemon.task(), &Task::Attach);
    assert!(daemon.inhibitor().is_none());

    assert!(feed(&mut daemon, vec![Event::Attached(Ok(()))]).is_empty());
    assert_eq!(
        daemon.task(),
        &Task::Inhibit {
            what: "handle-lid-switch",
            who: "Omarchy Power Policy",
            why: "Apply AC/battery lid policy",
            mode: "block",
        }
    );

    let log = feed(&mut daemon, vec![Event::Inhibited(Ok(Rc::clone(&inhibitor)))]);
    assert_eq!(log, ["INFO inhibitor acquired what=handle-lid-switch mode=block"]);
    assert_eq!(daemon.task(), &Task::OpenEpoch);
    assert!(Rc::ptr_eq(daemon.inhibitor().unwrap(), &inhibitor));

    feed(&mut daemon, vec![Event::Opened(Ok(()))]);
    assert_eq!(
        daemon.task(),
        &Task::ReadOnBattery { reason: "startup".to_string() }
    );
    feed(&mut daemon, vec![Event::Read(Ok(true))]);
    assert_eq!(
        daemon.task(),
        &Task::ReadLidIsClosed { reason: "startup".to_string(), on_battery: true }
    );
}

#[test]
fn typical_records_of_an_unplugged_closed_laptop() {
    let inhibitor = Rc::new(());
    let (mut daemon, mut log) = watching(false, &inhibitor, (false, true));
    assert_eq!(daemon.task(), &Task::Watch);
    log.extend(feed(&mut daemon, vec![changed(&["OnBattery"])]));
    log.extend(feed(&mut daemon, read(true, true)));
    assert_eq!(
        log,
        [
            "INFO inhibitor acquired what=handle-lid-switch mode=block",
            "INFO state reason=startup on_battery=false lid_closed=true",
            "INFO state reason=upower:OnBattery on_battery=true lid_closed=true",
            "WARN requesting suspend reason=upower:OnBattery",
        ]
    );
    assert_eq!(daemon.task(), &Task::Suspend { interactive: false });
}

#[test]
fn the_inhibitor_survives_a_upower_restart() {
    let inhibitor = Rc::new(());
    let (mut daemon, _) = watching(false, &inhibitor, (false, true));
    assert_eq!(Rc::strong_count(&inhibitor), 2);

    let log = feed(&mut daemon, vec![owner(UPOWER)]);
    assert_eq!(
        log,
        ["WARN D-Bus owner changed service=org.freedesktop.UPower; rebuilding UPower epoch"]
    );
    assert_eq!(daemon.task(), &Task::Pause { seconds: 1 });
    assert_eq!(Rc::strong_count(&inhibitor), 2);

    feed(&mut daemon, vec![Event::Elapsed]);
    assert_eq!(daemon.task(), &Task::OpenEpoch);
    assert!(feed(&mut daemon, vec![Event::Opened(Ok(()))]).is_empty());
    assert!(feed(&mut daemon, read(false, true)).is_empty());
    assert_eq!(daemon.task(), &Task::Watch);
    assert!(Rc::ptr_eq(daemon.inhibitor().unwrap(), &inhibitor));
    assert_eq!(Rc::strong_count(&inhibitor), 2);

    drop(daemon);
    assert_eq!(Rc::strong_count(&inhibitor), 1);
}

#[test]
fn a_restart_in_the_unsafe_state_does_not_suspend_again() {
    let inhibitor = Rc::new(());
    let (mut daemon, _) = watching(false, &inhibitor, (true, true));
    assert_eq!(daemon.task(), &Task::Suspend { interactive: false });
    feed(
        &mut daemon,
        vec![Event::Suspended(Ok(())), owner(UPOWER), Event::Elapsed, Event::Opened(Ok(()))],
    );
    assert!(feed(&mut daemon, read(true, true)).is_empty());
    assert_eq!(daemon.task(), &Task::Watch);
}

#[test]
fn a_failed_suspend_is_logged_and_not_repeated() {
    let inhibitor = Rc::new(());
    let (mut daemon, _) = watching(false, &inhibitor, (true, true));
    let log = feed(&mut daemon, vec![Event::Suspended(Err("denied".to_string()))]);
    assert_eq!(log, ["ERROR suspend request failed: denied"]);
    assert_eq!(daemon.task(), &Task::Watch);
    feed(&mut daemon, vec![changed(&["LidIsClosed"])]);
    assert!(feed(&mut daemon, read(true, true)).is_empty());
    assert_eq!(daemon.task(), &Task::Watch);
}

#[test]
fn a_dry_run_daemon_only_logs() {
    let inhibitor = Rc::new(());
    let (daemon, log) = watching(true, &inhibitor, (true, true));
    assert_eq!(daemon.task(), &Task::Watch);
    assert_eq!(log.last().unwrap(), "WARN dry-run suspend reason=startup");
}

#[test]
fn signals_that_do_not_matter_are_passed_over() {
    let inhibitor = Rc::new(());
    let (mut daemon, _) = watching(false, &inhibitor, (true, false));
    let log = feed(
        &mut daemon,
        vec![changed(&["DaemonVersion"]), owner("org.freedesktop.NetworkManager")],
    );
    assert!(log.is_empty());
    assert_eq!(daemon.task(), &Task::Watch);
}

#[test]
fn a_new_logind_ends_the_run() {
    let inhibitor = Rc::new(());
    let (mut daemon, _) = watching(false, &inhibitor, (false, false));
    let log = feed(&mut daemon, vec![owner(LOGIND)]);
    assert_eq!(
        log,
        ["WARN D-Bus owner changed service=org.freedesktop.login1; rebuilding daemon epoch"]
    );
    assert_eq!(daemon.task(), &Task::Finish(Ok(())));
    assert!(daemon.complete(Event::Elapsed).is_none());
}

#[test]
fn the_end_of_the_bus_ends_the_run_as_an_error() {
    let inhibitor = Rc::new(());
    let (mut daemon, _) = watching(false, &inhibitor, (false, false));
    assert!(feed(&mut daemon, vec![Event::Signalled(Signal::Owner(None))]).is_empty());
    assert_eq!(
        daemon.task(),
        &Task::Finish(Err("system D-Bus owner signal stream ended".to_string()))
    );
}

#[test]
fn errors_before_the_first_epoch_end_the_run() {
    let mut unattached: Daemon<Rc<()>> = Daemon::new(false);
    assert!(feed(&mut unattached, vec![Event::Attached(Err("no bus".to_string()))]).is_empty());
    assert_eq!(unattached.task(), &Task::Finish(Err("no bus".to_string())));

    let mut refused: Daemon<Rc<()>> = Daemon::new(false);
    feed(
        &mut refused,
        vec![Event::Attached(Ok(())), Event::Inhibited(Err("denied".to_string()))],
    );
    assert_eq!(refused.task(), &Task::Finish(Err("denied".to_string())));
    assert!(refused.inhibitor().is_none());
}

#[test]
fn errors_within_an_epoch_cost_the_epoch() {
    let inhibitor = Rc::new(());
    let failures: Vec<(Vec<Event<Rc<()>>>, &str)> = vec![
        (vec![Event::Signalled(Signal::Properties(None))], "UPower property signal stream ended"),
        (vec![Event::Signalled(Signal::Properties(Some(Err("bad".to_string()))))], "bad"),
        (vec![Event::Signalled(Signal::Owner(Some(Err("worse".to_string()))))], "worse"),
        (vec![changed(&["OnBattery"]), Event::Read(Err("gone".to_string()))], "gone"),
        (
            vec![
                changed(&["OnBattery"]),
                Event::Read(Ok(true)),
                Event::Read(Err("lost".to_string())),
            ],
            "lost",
        ),
        (
            vec![owner(UPOWER), Event::Elapsed, Event::Opened(Err("absent".to_string()))],
            "absent",
        ),
    ];
    for (events, error) in failures {
        let (mut daemon, _) = watching(false, &inhibitor, (true, true));
        feed(&mut daemon, vec![Event::Suspended(Ok(()))]);
        let log = feed(&mut daemon, events);
        assert_eq!(log.last().unwrap(), &format!("ERROR UPower epoch failed: {error}"));
        assert_eq!(daemon.task(), &Task::Pause { seconds: 1 });
        assert!(Rc::ptr_eq(daemon.inhibitor().unwrap(), &inhibitor));

        feed(&mut daemon, vec![Event::Elapsed, Event::Opened(Ok(()))]);
        assert!(feed(&mut daemon, read(true, true)).is_empty());
        assert_eq!(daemon.task(), &Task::Watch);
    }
}

#[test]
fn events_out_of_turn_are_refused() {
    let inhibitor = Rc::new(());
    let (mut daemon, _) = watching(false, &inhibitor, (false, true));
    assert!(daemon.complete(Event::Inhibited(Ok(Rc::new(())))).is_none());
    assert!(daemon.complete(Event::Read(Ok(true))).is_none());
    assert!(daemon.complete(Event::Suspended(Ok(()))).is_none());
    assert_eq!(daemon.task(), &Task::Watch);
    assert!(Rc::ptr_eq(daemon.inhibitor().unwrap(), &inhibitor));
}

#[test]
fn tasks_name_what_they_read_and_call() {
    let inhibitor = Rc::new(());
    let mut daemon = Daemon::new(false);
    let events = vec![
        Event::Attached(Ok(())),
        Event::Inhibited(Ok(Rc::clone(&inhibitor))),
        Event::Opened(Ok(())),
        Event::Read(Ok(true)),
        Event::Read(Ok(true)),
        Event::Suspended(Ok(())),
        owner(UPOWER),
    ];
    let mut named = vec![(daemon.task().property(), daemon.task().method())];
    for event in events {
        feed(&mut daemon, vec![event]);
        named.push((daemon.task().property(), daemon.task().method()));
    }
    assert_eq!(
        named,
        [
            (None, None),
            (None, Some("Inhibit")),
            (None, None),
            (Some("OnBattery"), None),
            (Some("LidIsClosed"), None),
            (None, Some("Suspend")),
            (None, None),
            (None, None),
        ]
    );
    feed(&mut daemon, vec![Event::Elapsed, Event::Opened(Ok(()))]);
    feed(&mut daemon, read(true, true));
    feed(&mut daemon, vec![owner(LOGIND)]);
    assert_eq!(daemon.task(), &Task::Finish(Ok(())));
    assert_eq!((daemon.task().property(), daemon.task().method()), (None, None));
}
