//! What a single event does to the daemon: which events are taken, what stays as it was, when
//! each piece of work comes up, and what is logged.

use vstd::prelude::*;

use crate::daemon;
use crate::daemon::{DaemonView, Event, EventView, Task, TaskView};
use crate::epoch;
use crate::epoch::{ReactionView, Signal, SignalView};
use crate::evaluate;

verus! {

/// A run starts by attaching, without an inhibitor and without a reading behind it.
pub proof fn how_a_run_starts<I>(dry_run: bool)
    ensures
        daemon::fresh::<I>(dry_run).dry_run == dry_run,
        daemon::fresh::<I>(dry_run).task is Attach,
        daemon::fresh::<I>(dry_run).inhibitor is None,
        daemon::fresh::<I>(dry_run).last_observed is None,
        !daemon::fresh::<I>(dry_run).latched,
{
}

/// Each kind of event is taken exactly while the work that it reports on is due.
pub proof fn events_are_taken_in_turn<I>(state: DaemonView<I>, event: EventView<I>)
    ensures
        state.next(event) is Some <==> match event {
            EventView::Attached(_) => state.task is Attach,
            EventView::Inhibited(_) => state.task is Inhibit,
            EventView::Opened(_) => state.task is OpenEpoch,
            EventView::Read(_) => state.task is ReadOnBattery || state.task is ReadLidIsClosed,
            EventView::Suspended(_) => state.task is Suspend,
            EventView::Signalled(_) => state.task is Watch,
            EventView::Elapsed => state.task is Pause,
        },
{
}

/// The mode never changes. The inhibitor changes only when one is granted, to that one. The latch
/// and the last reading change only when a lid value completes a reading, to what was read.
pub proof fn what_an_event_leaves_alone<I>(state: DaemonView<I>, event: EventView<I>)
    requires
        state.next(event) is Some,
    ensures
        ({
            let next = state.next(event)->0.state;
            &&& next.dry_run == state.dry_run
            &&& match event {
                EventView::Inhibited(Ok(granted)) => next.inhibitor == Some(granted),
                _ => next.inhibitor == state.inhibitor,
            }
            &&& match (state.task, event) {
                (
                    TaskView::ReadLidIsClosed { on_battery, .. },
                    EventView::Read(Ok(lid_closed)),
                ) => next.last_observed == Some((on_battery, lid_closed)) && next.latched == (
                on_battery && lid_closed),
                _ => next.last_observed == state.last_observed && next.latched == state.latched,
            }
        }),
{
}

/// Attaching is never due again. The inhibitor is asked for right after attaching, and it is the
/// one that blocks the handling of the lid switch.
pub proof fn when_the_inhibitor_is_asked_for<I>(state: DaemonView<I>, event: EventView<I>)
    requires
        state.next(event) is Some,
    ensures
        ({
            let next = state.next(event)->0.state.task;
            &&& next !is Attach
            &&& next is Inhibit <==> (event matches EventView::Attached(Ok(_)))
            &&& next is Inhibit ==> next == (TaskView::Inhibit {
                what: "handle-lid-switch"@,
                who: "Omarchy Power Policy"@,
                why: "Apply AC/battery lid policy"@,
                mode: "block"@,
            })
        }),
{
}

/// An epoch is opened right after the inhibitor is granted and after every pause, and at no other
/// time.
pub proof fn when_an_epoch_is_opened<I>(state: DaemonView<I>, event: EventView<I>)
    requires
        state.next(event) is Some,
    ensures
        state.next(event)->0.state.task is OpenEpoch <==> (event matches EventView::Inhibited(
            Ok(_),
        )) || event is Elapsed,
{
}

/// The battery is read when an epoch has opened, for the reason `startup`, and when a property
/// change matters, for the reason that the change gives.
pub proof fn when_the_battery_is_read<I>(
    state: DaemonView<I>,
    event: EventView<I>,
    reason: Seq<char>,
)
    requires
        state.next(event) is Some,
    ensures
        state.next(event)->0.state.task == (TaskView::ReadOnBattery { reason }) <==> match event {
            EventView::Opened(Ok(_)) => reason == "startup"@,
            EventView::Signalled(SignalView::Properties(Some(Ok(change)))) =>
            epoch::change_reaction(change) == ReactionView::Evaluate(reason),
            _ => false,
        },
{
}

/// In every state, one that already reads the lid among them, the lid is read next exactly after
/// the value of a battery read, which the work then carries on, with its reason.
pub proof fn when_the_lid_is_read<I>(
    state: DaemonView<I>,
    event: EventView<I>,
    reason: Seq<char>,
    on_battery: bool,
)
    requires
        state.next(event) is Some,
    ensures
        state.next(event)->0.state.task == (TaskView::ReadLidIsClosed { reason, on_battery }) <==>
            state.task == (TaskView::ReadOnBattery { reason }) && event == EventView::<I>::Read(
            Ok(on_battery),
        ),
{
}

/// A suspend is asked for exactly when a reading is completed in a real run, on battery with the
/// lid closed, while the latch is open; and it is never interactive.
pub proof fn when_a_suspend_is_asked_for<I>(state: DaemonView<I>, event: EventView<I>)
    requires
        state.next(event) is Some,
    ensures
        ({
            let next = state.next(event)->0.state.task;
            &&& next is Suspend <==> !state.dry_run && !state.latched && (
            state.task matches TaskView::ReadLidIsClosed { on_battery, .. } && on_battery) && event
                == EventView::<I>::Read(Ok(true))
            &&& next is Suspend ==> next == (TaskView::Suspend { interactive: false })
        }),
{
}

/// The daemon goes on watching after every complete reading that asks for no suspend, after every
/// suspend request however it went, and after every signal that means nothing to it.
pub proof fn when_the_daemon_watches<I>(state: DaemonView<I>, event: EventView<I>)
    requires
        state.next(event) is Some,
    ensures
        state.next(event)->0.state.task is Watch <==> match (state.task, event) {
            (TaskView::ReadLidIsClosed { on_battery, .. }, EventView::Read(Ok(lid_closed))) =>
            state.dry_run || state.latched || !on_battery || !lid_closed,
            (_, EventView::Suspended(_)) => true,
            (_, EventView::Signalled(signal)) => epoch::reaction(signal) is Ignore,
            _ => false,
        },
{
}

/// The daemon pauses, for one second, exactly when an epoch cannot be opened, a property cannot
/// be read, a signal cannot be decoded, the property changes end or UPower changes its owner.
pub proof fn when_the_daemon_pauses<I>(state: DaemonView<I>, event: EventView<I>)
    requires
        state.next(event) is Some,
    ensures
        ({
            let next = state.next(event)->0.state.task;
            &&& next is Pause <==> match event {
                EventView::Opened(Err(_)) => true,
                EventView::Read(Err(_)) => true,
                EventView::Signalled(SignalView::Properties(None)) => true,
                EventView::Signalled(SignalView::Properties(Some(Err(_)))) => true,
                EventView::Signalled(SignalView::Owner(Some(Err(_)))) => true,
                EventView::Signalled(SignalView::Owner(Some(Ok(name)))) => name
                    == "org.freedesktop.UPower"@,
                _ => false,
            }
            &&& next is Pause ==> next == (TaskView::Pause { seconds: 1 })
        }),
{
    crate::bus::service_names_differ();
}

/// The run ends exactly when attaching or inhibiting fails, with that error; when logind changes
/// its owner, without one; and when the owner changes end, as the end of the bus.
pub proof fn when_the_run_ends<I>(
    state: DaemonView<I>,
    event: EventView<I>,
    error: Seq<char>,
)
    requires
        state.next(event) is Some,
    ensures
        ({
            let next = state.next(event)->0.state.task;
            &&& next is Finish <==> match event {
                EventView::Attached(Err(_)) => true,
                EventView::Inhibited(Err(_)) => true,
                EventView::Signalled(SignalView::Owner(None)) => true,
                EventView::Signalled(SignalView::Owner(Some(Ok(name)))) => name
                    == "org.freedesktop.login1"@,
                _ => false,
            }
            &&& event == EventView::<I>::Attached(Err(error)) ==> next == TaskView::Finish(
                Err(error),
            )
            &&& event == EventView::<I>::Inhibited(Err(error)) ==> next == TaskView::Finish(
                Err(error),
            )
            &&& event == EventView::<I>::Signalled(SignalView::Owner(None)) ==> next
                == TaskView::Finish(Err("system D-Bus owner signal stream ended"@))
            &&& event == EventView::<I>::Signalled(
                SignalView::Owner(Some(Ok("org.freedesktop.login1"@))),
            ) ==> next == TaskView::Finish(Ok(()))
        }),
{
    crate::bus::service_names_differ();
}

/// What is logged: the inhibitor that was granted, what a reading and a suspend outcome call for,
/// every error that costs an epoch in its own words, and the new owner of UPower or of logind.
/// Nothing else is.
pub proof fn what_an_event_logs<I>(state: DaemonView<I>, event: EventView<I>)
    requires
        state.next(event) is Some,
    ensures
        state.next(event)->0.log == match (state.task, event) {
            (_, EventView::Inhibited(Ok(_))) => seq![
                "INFO inhibitor acquired what=handle-lid-switch mode=block"@,
            ],
            (
                TaskView::ReadLidIsClosed { reason, on_battery },
                EventView::Read(Ok(lid_closed)),
            ) => evaluate::evaluation_log(
                state.latched,
                state.last_observed,
                (on_battery, lid_closed),
                reason,
                state.dry_run,
            ),
            (_, EventView::Suspended(outcome)) => evaluate::suspend_outcome_log(outcome),
            (_, EventView::Opened(Err(error))) => seq!["ERROR UPower epoch failed: "@ + error],
            (_, EventView::Read(Err(error))) => seq!["ERROR UPower epoch failed: "@ + error],
            (_, EventView::Signalled(SignalView::Properties(Some(Err(error))))) => seq![
                "ERROR UPower epoch failed: "@ + error,
            ],
            (_, EventView::Signalled(SignalView::Owner(Some(Err(error))))) => seq![
                "ERROR UPower epoch failed: "@ + error,
            ],
            (_, EventView::Signalled(SignalView::Properties(None))) => seq![
                "ERROR UPower epoch failed: "@ + "UPower property signal stream ended"@,
            ],
            (_, EventView::Signalled(SignalView::Owner(Some(Ok(name))))) => if name
                == "org.freedesktop.UPower"@ {
                seq![upower_change_line()]
            } else if name == "org.freedesktop.login1"@ {
                seq![logind_change_line()]
            } else {
                Seq::empty()
            },
            _ => Seq::empty(),
        },
{
    crate::bus::service_names_differ();
    owner_lines_in_full();
}

/// The log line for a new owner of UPower.
pub open spec fn upower_change_line() -> Seq<char> {
    "WARN D-Bus owner changed service=org.freedesktop.UPower; rebuilding UPower epoch"@
}

/// The log line for a new owner of logind.
pub open spec fn logind_change_line() -> Seq<char> {
    "WARN D-Bus owner changed service=org.freedesktop.login1; rebuilding daemon epoch"@
}

/// The lines for new owners, written out, name the service and what is built again.
pub proof fn owner_lines_in_full()
    ensures
        daemon::owner_changed_line("org.freedesktop.UPower"@, "UPower"@)
            == "WARN D-Bus owner changed service=org.freedesktop.UPower; rebuilding UPower epoch"@,
        daemon::owner_changed_line("org.freedesktop.login1"@, "daemon"@)
            == "WARN D-Bus owner changed service=org.freedesktop.login1; rebuilding daemon epoch"@,
        upower_change_line()
            == "WARN D-Bus owner changed service=org.freedesktop.UPower; rebuilding UPower epoch"@,
        logind_change_line()
            == "WARN D-Bus owner changed service=org.freedesktop.login1; rebuilding daemon epoch"@,
{
    reveal_strlit("WARN D-Bus owner changed service=");
    reveal_strlit("; rebuilding ");
    reveal_strlit(" epoch");
    reveal_strlit("UPower");
    reveal_strlit("daemon");
    reveal_strlit("org.freedesktop.UPower");
    reveal_strlit("org.freedesktop.login1");
    reveal_strlit(
        "WARN D-Bus owner changed service=org.freedesktop.UPower; rebuilding UPower epoch",
    );
    reveal_strlit(
        "WARN D-Bus owner changed service=org.freedesktop.login1; rebuilding daemon epoch",
    );
    assert(daemon::owner_changed_line("org.freedesktop.UPower"@, "UPower"@)
        =~= upower_change_line());
    assert(daemon::owner_changed_line("org.freedesktop.login1"@, "daemon"@)
        =~= logind_change_line());
}

/// For every reason, the two read tasks name the two properties; the inhibitor and the suspend
/// name their methods whatever their arguments; and no other task names anything.
pub proof fn what_each_task_names(task: TaskView)
    ensures
        match task {
            TaskView::ReadOnBattery { .. } => task.property() == Some("OnBattery"@),
            TaskView::ReadLidIsClosed { .. } => task.property() == Some("LidIsClosed"@),
            _ => task.property() is None,
        },
        match task {
            TaskView::Inhibit { .. } => task.method() == Some("Inhibit"@),
            TaskView::Suspend { .. } => task.method() == Some("Suspend"@),
            _ => task.method() is None,
        },
{
}

/// The views of tasks keep all that they hold.
pub proof fn views_keep_every_task(
    words: String,
    name: &'static str,
    other: &'static str,
    third: &'static str,
    fourth: &'static str,
    flag: bool,
    seconds: u64,
)
    ensures
        Task::Attach@ == TaskView::Attach,
        (Task::Inhibit { what: name, who: other, why: third, mode: fourth })@ == (
        TaskView::Inhibit { what: name@, who: other@, why: third@, mode: fourth@ }),
        Task::OpenEpoch@ == TaskView::OpenEpoch,
        (Task::ReadOnBattery { reason: words })@ == (TaskView::ReadOnBattery { reason: words@ }),
        (Task::ReadLidIsClosed { reason: words, on_battery: flag })@ == (
        TaskView::ReadLidIsClosed { reason: words@, on_battery: flag }),
        (Task::Suspend { interactive: flag })@ == (TaskView::Suspend { interactive: flag }),
        Task::Watch@ == TaskView::Watch,
        (Task::Pause { seconds })@ == (TaskView::Pause { seconds }),
        Task::Finish(Ok(()))@ == TaskView::Finish(Ok(())),
        Task::Finish(Err(words))@ == TaskView::Finish(Err(words@)),
        daemon::name_text(Some(name)) == Some(name@),
        daemon::name_text(None) is None,
{
}

/// The views of events keep all that they hold, the inhibitor included.
pub proof fn views_keep_every_event<I>(words: String, granted: I, flag: bool, signal: Signal)
    ensures
        Event::<I>::Attached(Ok(()))@ == EventView::<I>::Attached(Ok(())),
        Event::<I>::Attached(Err(words))@ == EventView::<I>::Attached(Err(words@)),
        Event::<I>::Inhibited(Ok(granted))@ == EventView::<I>::Inhibited(Ok(granted)),
        Event::<I>::Inhibited(Err(words))@ == EventView::<I>::Inhibited(Err(words@)),
        Event::<I>::Opened(Ok(()))@ == EventView::<I>::Opened(Ok(())),
        Event::<I>::Opened(Err(words))@ == EventView::<I>::Opened(Err(words@)),
        Event::<I>::Read(Ok(flag))@ == EventView::<I>::Read(Ok(flag)),
        Event::<I>::Read(Err(words))@ == EventView::<I>::Read(Err(words@)),
        Event::<I>::Suspended(Ok(()))@ == EventView::<I>::Suspended(Ok(())),
        Event::<I>::Suspended(Err(words))@ == EventView::<I>::Suspended(Err(words@)),
        Event::<I>::Signalled(signal)@ == EventView::<I>::Signalled(signal@),
        Event::<I>::Elapsed@ == EventView::<I>::Elapsed,
{
}

} // verus!
