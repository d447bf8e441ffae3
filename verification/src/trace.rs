//! What holds of whole runs of the daemon, whatever the outside world reports.

use vstd::prelude::*;

use crate::bus;
use crate::bus::{LID_IS_CLOSED, LOGIND_NAME, ON_BATTERY, UPOWER_NAME};
use crate::daemon;
use crate::daemon::{DaemonView, EventView, Move, TaskView};
use crate::epoch;
use crate::epoch::SignalView;
use crate::policy;
use crate::policy::Observation;

verus! {

impl<I> DaemonView<I> {
    /// The state after the event. An event that does not belong to the work changes nothing.
    pub open spec fn after(self, event: EventView<I>) -> DaemonView<I> {
        match self.next(event) {
            Some(moved) => moved.state,
            None => self,
        }
    }

    /// The state after all the events, in order.
    pub open spec fn after_all(self, events: Seq<EventView<I>>) -> DaemonView<I>
        decreases events.len(),
    {
        if events.len() == 0 {
            self
        } else {
            self.after(events[0]).after_all(events.drop_first())
        }
    }

    /// The reading that the event completes, if it completes one.
    pub open spec fn reading(self, event: EventView<I>) -> Option<Observation> {
        match (self.task, event) {
            (TaskView::ReadLidIsClosed { on_battery, .. }, EventView::Read(Ok(lid_closed))) => Some(
                (on_battery, lid_closed),
            ),
            _ => None,
        }
    }

    /// The readings that the events complete, in order.
    pub open spec fn readings(self, events: Seq<EventView<I>>) -> Seq<Observation>
        decreases events.len(),
    {
        if events.len() == 0 {
            Seq::empty()
        } else {
            let rest = self.after(events[0]).readings(events.drop_first());
            match self.reading(events[0]) {
                Some(observed) => seq![observed] + rest,
                None => rest,
            }
        }
    }

    /// For each reading that the events complete, whether it makes a suspend due work.
    pub open spec fn requests(self, events: Seq<EventView<I>>) -> Seq<bool>
        decreases events.len(),
    {
        if events.len() == 0 {
            Seq::empty()
        } else {
            let rest = self.after(events[0]).requests(events.drop_first());
            match self.reading(events[0]) {
                Some(_) => seq![self.after(events[0]).task is Suspend] + rest,
                None => rest,
            }
        }
    }

    /// What every state of a run has in common: the inhibitor is held from when it is granted,
    /// so through every epoch; the latch belongs to the last reading; a suspend is due only for
    /// an unsafe reading, never asks anyone for consent and never happens in a dry run; and the
    /// inhibitor and the pause are always the same ones.
    pub open spec fn coherent(self) -> bool {
        &&& self.task is Attach || self.task is Inhibit ==> self.inhibitor is None
        &&& self.inhibitor is None ==> self.task is Attach || self.task is Inhibit
            || self.task is Finish
        &&& self.latched == (self.last_observed == Some((true, true)))
        &&& self.task is Suspend ==> self.task == (TaskView::Suspend { interactive: false })
            && self.latched && !self.dry_run
        &&& self.task is Inhibit ==> self.task == daemon::inhibit_task()
        &&& self.task is Pause ==> self.task == daemon::pause_task()
    }
}

/// An event is refused exactly when it does not report on the work that is due; once the run is
/// over every event is.
pub proof fn events_are_refused_only_out_of_turn<I>(state: DaemonView<I>, event: EventView<I>)
    ensures
        state.next(event) is Some <==> state.awaits(event),
        state.task is Finish ==> state.next(event) is None,
{
}

/// One event keeps a state coherent, and changes neither the mode nor an inhibitor that is held.
pub proof fn one_event_keeps_coherence<I>(state: DaemonView<I>, event: EventView<I>)
    requires
        state.coherent(),
    ensures
        state.after(event).coherent(),
        state.after(event).dry_run == state.dry_run,
        state.inhibitor is Some ==> state.after(event).inhibitor == state.inhibitor,
{
}

/// Every state that a run can reach is coherent, and runs in the mode it was started in.
pub proof fn runs_stay_coherent<I>(dry_run: bool, events: Seq<EventView<I>>)
    ensures
        daemon::fresh::<I>(dry_run).after_all(events).coherent(),
        daemon::fresh::<I>(dry_run).after_all(events).dry_run == dry_run,
{
    coherence_is_kept(daemon::fresh::<I>(dry_run), events);
}

/// Any number of events keeps a state coherent, and changes neither the mode nor an inhibitor
/// that is held.
proof fn coherence_is_kept<I>(state: DaemonView<I>, events: Seq<EventView<I>>)
    requires
        state.coherent(),
    ensures
        state.after_all(events).coherent(),
        state.after_all(events).dry_run == state.dry_run,
        state.inhibitor is Some ==> state.after_all(events).inhibitor == state.inhibitor,
    decreases events.len(),
{
    if events.len() > 0 {
        one_event_keeps_coherence(state, events[0]);
        coherence_is_kept(state.after(events[0]), events.drop_first());
    }
}

/// The inhibitor that was granted is the one held from then on, through UPower restarts, failed
/// epochs and suspends, and no other is asked for.
pub proof fn the_inhibitor_outlives_every_epoch<I>(
    state: DaemonView<I>,
    events: Seq<EventView<I>>,
)
    requires
        state.coherent(),
        state.inhibitor is Some,
    ensures
        state.after_all(events).inhibitor == state.inhibitor,
        state.after_all(events).task !is Attach,
        state.after_all(events).task !is Inhibit,
{
    coherence_is_kept(state, events);
}

/// While the inhibitor is held, only a new owner of logind or the end of the bus ends the run:
/// the first to start over, the second as an error.
pub proof fn what_ends_a_run<I>(state: DaemonView<I>, event: EventView<I>)
    requires
        state.coherent(),
        state.inhibitor is Some,
        state.task !is Finish,
    ensures
        state.after(event).task is Finish <==> state.task is Watch && (event
            == EventView::<I>::Signalled(SignalView::Owner(Some(Ok(LOGIND_NAME@)))) || event
            == EventView::<I>::Signalled(SignalView::Owner(None))),
        state.task is Watch && event == EventView::<I>::Signalled(
            SignalView::Owner(Some(Ok(LOGIND_NAME@))),
        ) ==> state.after(event).task == TaskView::Finish(Ok(())),
        state.task is Watch && event == EventView::<I>::Signalled(SignalView::Owner(None)) ==> (
        state.after(event).task matches TaskView::Finish(Err(_))),
{
    if let EventView::Signalled(signal) = event {
        epoch::what_ends_an_epoch(signal);
    }
}

/// Whatever breaks an epoch off costs the epoch alone: inhibitor, latch and last reading stay,
/// and after the pause the next epoch is opened.
pub proof fn a_broken_epoch_costs_the_epoch_alone<I>(state: DaemonView<I>, event: EventView<I>)
    requires
        state.task !is Pause,
        state.after(event).task is Pause,
    ensures
        state.after(event) == state.with_task(daemon::pause_task()),
        state.after(event).after(EventView::Elapsed) == state.with_task(TaskView::OpenEpoch),
{
}

/// Errors of UPower, of either signal stream's contents and the end of the property stream all
/// break the epoch off and leave the run going.
pub proof fn upower_errors_break_the_epoch_off<I>(state: DaemonView<I>, error: Seq<char>)
    ensures
        state.task is OpenEpoch ==> state.after(EventView::Opened(Err(error))).task is Pause,
        state.task is ReadOnBattery || state.task is ReadLidIsClosed ==> state.after(
            EventView::Read(Err(error)),
        ).task is Pause,
        state.task is Watch ==> state.after(
            EventView::Signalled(SignalView::Properties(None)),
        ).task is Pause,
        state.task is Watch ==> state.after(
            EventView::Signalled(SignalView::Properties(Some(Err(error)))),
        ).task is Pause,
        state.task is Watch ==> state.after(
            EventView::Signalled(SignalView::Owner(Some(Err(error)))),
        ).task is Pause,
        state.task is Watch ==> state.after(
            EventView::Signalled(SignalView::Owner(Some(Ok(UPOWER_NAME@)))),
        ).task is Pause,
{
}

/// The events of a UPower restart after which it reports the reading given.
pub open spec fn upower_restart<I>(observed: Observation) -> Seq<EventView<I>> {
    seq![
        EventView::Signalled(SignalView::Owner(Some(Ok(UPOWER_NAME@)))),
        EventView::Elapsed,
        EventView::Opened(Ok(())),
        EventView::Read(Ok(observed.0)),
        EventView::Read(Ok(observed.1)),
    ]
}

/// A UPower restart that leaves the machine as it was changes nothing: the daemon is back where
/// it was, with the same inhibitor, and has asked for no suspend.
pub proof fn a_upower_restart_changes_nothing<I>(state: DaemonView<I>, observed: Observation)
    requires
        state.coherent(),
        state.task is Watch,
        state.last_observed == Some(observed),
    ensures
        state.after_all(upower_restart(observed)) == state,
        state.requests(upower_restart(observed)) == seq![false],
{
    let e = upower_restart::<I>(observed);
    let e1 = e.drop_first();
    let e2 = e1.drop_first();
    let e3 = e2.drop_first();
    let e4 = e3.drop_first();
    let s1 = state.after(e[0]);
    let s2 = s1.after(e1[0]);
    let s3 = s2.after(e2[0]);
    let s4 = s3.after(e3[0]);
    let s5 = s4.after(e4[0]);
    reveal_with_fuel(DaemonView::after_all, 6);
    reveal_with_fuel(DaemonView::requests, 6);
    assert(s1 == state.with_task(daemon::pause_task()));
    assert(s5 == state);
    assert(e4.drop_first() =~= Seq::empty());
    assert(state.requests(e) =~= seq![false]);
}

/// A reading is the value of `OnBattery`, read first, with the value of `LidIsClosed`, read right
/// after it.
pub proof fn a_reading_pairs_the_two_properties<I>(
    state: DaemonView<I>,
    on_battery: bool,
    lid_closed: bool,
)
    requires
        state.task.property() == Some(ON_BATTERY@),
    ensures
        state.after(EventView::Read(Ok(on_battery))).task.property() == Some(LID_IS_CLOSED@),
        state.after(EventView::Read(Ok(on_battery))).reading(EventView::Read(Ok(lid_closed)))
            == Some((on_battery, lid_closed)),
        state.after(EventView::Read(Ok(on_battery))).after(
            EventView::Read(Ok(lid_closed)),
        ).last_observed == Some((on_battery, lid_closed)),
{
    bus::property_names_differ();
}

/// The task for `LidIsClosed` comes only after a value of `OnBattery`, and carries that value.
pub proof fn the_lid_is_read_after_the_battery<I>(state: DaemonView<I>, event: EventView<I>)
    requires
        state.task.property() != Some(LID_IS_CLOSED@),
        state.after(event).task.property() == Some(LID_IS_CLOSED@),
    ensures
        state.task.property() == Some(ON_BATTERY@),
        event matches EventView::Read(Ok(on_battery)) && (
        state.after(event).task matches TaskView::ReadLidIsClosed { on_battery: carried, .. }
            && carried == on_battery),
{
    bus::property_names_differ();
}

/// The machine is read when an epoch opens and when a property of the policy changes, and at no
/// other time: nothing is polled.
pub proof fn nothing_is_polled<I>(state: DaemonView<I>, event: EventView<I>)
    requires
        state.task !is ReadOnBattery,
    ensures
        state.after(event).task is ReadOnBattery <==> (state.task is OpenEpoch && (
        event matches EventView::Opened(Ok(_)))) || (state.task is Watch && (
        event matches EventView::Signalled(SignalView::Properties(Some(Ok(change))))
            && epoch::change_reaction(change) is Evaluate)),
{
}

/// A change of anything but the two properties, and a new owner of any other service, goes by
/// without a trace.
pub proof fn other_signals_change_nothing<I>(state: DaemonView<I>, signal: SignalView)
    requires
        state.task is Watch,
        epoch::reaction(signal) is Ignore,
    ensures
        state.next(EventView::Signalled(signal)) == Some(
            Move { state, log: Seq::<Seq<char>>::empty() },
        ),
{
}

/// Only a complete reading makes a suspend due, and only if the unsafe state begins with it.
pub proof fn only_a_reading_makes_a_suspend_due<I>(state: DaemonView<I>, event: EventView<I>)
    requires
        state.task !is Suspend,
    ensures
        state.after(event).task is Suspend <==> !state.dry_run && (state.reading(event) matches Some(
            observed,
        ) && policy::suspend_due(state.latched, observed)),
{
}

/// Over a whole run, however many epochs it spans, the suspends asked for are the policy's
/// answers to the readings; a dry run asks for none.
pub proof fn suspends_follow_the_policy<I>(state: DaemonView<I>, events: Seq<EventView<I>>)
    ensures
        state.requests(events).len() == state.readings(events).len(),
        !state.dry_run ==> state.requests(events) == policy::answers(
            state.latched,
            state.readings(events),
        ),
        state.dry_run ==> forall|i: int|
            0 <= i < state.requests(events).len() ==> !#[trigger] state.requests(events)[i],
    decreases events.len(),
{
    if events.len() > 0 {
        let moved = state.after(events[0]);
        suspends_follow_the_policy(moved, events.drop_first());
        if let Some(observed) = state.reading(events[0]) {
            assert(state.readings(events).drop_first() =~= moved.readings(events.drop_first()));
        }
    }
}

/// From its start on, a run asks for a suspend with exactly those readings that are unsafe after
/// one that was safe, or after none.
pub proof fn a_run_suspends_where_the_unsafe_state_begins<I>(events: Seq<EventView<I>>, i: int)
    requires
        0 <= i < daemon::fresh::<I>(false).readings(events).len(),
    ensures
        daemon::fresh::<I>(false).requests(events)[i] <==> policy::is_unsafe(
            daemon::fresh::<I>(false).readings(events)[i],
        ) && (i == 0 || !policy::is_unsafe(daemon::fresh::<I>(false).readings(events)[i - 1])),
{
    let start = daemon::fresh::<I>(false);
    suspends_follow_the_policy(start, events);
    policy::requests_mark_unsafe_beginnings(start.latched, start.readings(events));
}

/// A dry run never asks for a suspend.
pub proof fn a_dry_run_never_suspends<I>(events: Seq<EventView<I>>)
    ensures
        daemon::fresh::<I>(true).after_all(events).task !is Suspend,
{
    runs_stay_coherent::<I>(true, events);
}

/// A suspend request is not repeated, whether logind granted it or not: the daemon goes back to
/// watching, with the latch still set.
pub proof fn a_suspend_is_asked_for_once<I>(state: DaemonView<I>, outcome: Result<(), Seq<char>>)
    requires
        state.coherent(),
        state.task is Suspend,
    ensures
        state.after(EventView::Suspended(outcome)) == state.with_task(TaskView::Watch),
        state.after(EventView::Suspended(outcome)).latched,
{
}

} // verus!
