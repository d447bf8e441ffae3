//! The daemon on one bus connection, as a state machine. The machine says which piece of outside
//! work is due, a driver does it and reports how it went, and the machine moves on. It owns
//! logind's inhibitor from the moment that is granted, and lets it go only when it is dropped.

use vstd::prelude::*;

use crate::bus::{
    INHIBIT_METHOD, INHIBIT_MODE, INHIBIT_WHAT, INHIBIT_WHO, INHIBIT_WHY, LID_IS_CLOSED,
    LOGIND_NAME, ON_BATTERY, RETRY_SECONDS, SUSPEND_METHOD, UPOWER_NAME,
};
use crate::epoch;
use crate::epoch::{EpochEnd, Reaction, ReactionView, Signal, SignalView};
use crate::evaluate;
use crate::policy;
use crate::policy::{Observation, PolicyEngine};
use crate::text;

verus! {

/// The piece of outside work that is due.
#[derive(Debug, PartialEq, Eq)]
pub enum Task {
    /// Reach logind and the bus, and subscribe to owner changes.
    Attach,
    /// Ask logind for this inhibitor.
    Inhibit { what: &'static str, who: &'static str, why: &'static str, mode: &'static str },
    /// Reach UPower and subscribe to its property changes, anew.
    OpenEpoch,
    /// Read whether the machine is on battery, for the reason given.
    ReadOnBattery { reason: String },
    /// Read whether the lid is closed, the battery having been read.
    ReadLidIsClosed { reason: String, on_battery: bool },
    /// Ask logind to suspend.
    Suspend { interactive: bool },
    /// Wait for the next signal of either stream.
    Watch,
    /// Give up the subscription to UPower and sleep.
    Pause { seconds: u64 },
    /// Nothing more: the run is over, with this outcome. The driver drops the machine.
    Finish(Result<(), String>),
}

/// A task by its text.
pub enum TaskView {
    Attach,
    Inhibit { what: Seq<char>, who: Seq<char>, why: Seq<char>, mode: Seq<char> },
    OpenEpoch,
    ReadOnBattery { reason: Seq<char> },
    ReadLidIsClosed { reason: Seq<char>, on_battery: bool },
    Suspend { interactive: bool },
    Watch,
    Pause { seconds: u64 },
    Finish(Result<(), Seq<char>>),
}

impl View for Task {
    type V = TaskView;

    open spec fn view(&self) -> TaskView {
        match self {
            Task::Attach => TaskView::Attach,
            Task::Inhibit { what, who, why, mode } => TaskView::Inhibit {
                what: what@,
                who: who@,
                why: why@,
                mode: mode@,
            },
            Task::OpenEpoch => TaskView::OpenEpoch,
            Task::ReadOnBattery { reason } => TaskView::ReadOnBattery { reason: reason@ },
            Task::ReadLidIsClosed { reason, on_battery } => TaskView::ReadLidIsClosed {
                reason: reason@,
                on_battery: *on_battery,
            },
            Task::Suspend { interactive } => TaskView::Suspend { interactive: *interactive },
            Task::Watch => TaskView::Watch,
            Task::Pause { seconds } => TaskView::Pause { seconds: *seconds },
            Task::Finish(outcome) => TaskView::Finish(text::outcome(*outcome)),
        }
    }
}

impl TaskView {
    /// The UPower property that the task reads, if it reads one.
    pub open spec fn property(self) -> Option<Seq<char>> {
        match self {
            TaskView::ReadOnBattery { .. } => Some(ON_BATTERY@),
            TaskView::ReadLidIsClosed { .. } => Some(LID_IS_CLOSED@),
            _ => None,
        }
    }

    /// The method of logind that the task calls, if it calls one.
    pub open spec fn method(self) -> Option<Seq<char>> {
        match self {
            TaskView::Inhibit { .. } => Some(INHIBIT_METHOD@),
            TaskView::Suspend { .. } => Some(SUSPEND_METHOD@),
            _ => None,
        }
    }
}

/// A name that may be absent, by its characters.
pub open spec fn name_text(name: Option<&'static str>) -> Option<Seq<char>> {
    match name {
        Some(name) => Some(name@),
        None => None,
    }
}

impl Task {
    /// The UPower property to read, for the two tasks that read one.
    pub fn property(&self) -> (name: Option<&'static str>)
        ensures
            name_text(name) == self@.property(),
    {
        match self {
            Task::ReadOnBattery { .. } => Some(ON_BATTERY),
            Task::ReadLidIsClosed { .. } => Some(LID_IS_CLOSED),
            _ => None,
        }
    }

    /// The method of logind to call, for the two tasks that call one.
    pub fn method(&self) -> (name: Option<&'static str>)
        ensures
            name_text(name) == self@.method(),
    {
        match self {
            Task::Inhibit { .. } => Some(INHIBIT_METHOD),
            Task::Suspend { .. } => Some(SUSPEND_METHOD),
            _ => None,
        }
    }
}

/// How a piece of outside work went. Errors are given by their message. `I` is the inhibitor.
#[derive(Debug, PartialEq, Eq)]
pub enum Event<I> {
    /// The outcome of `Task::Attach`.
    Attached(Result<(), String>),
    /// The outcome of `Task::Inhibit`.
    Inhibited(Result<I, String>),
    /// The outcome of `Task::OpenEpoch`.
    Opened(Result<(), String>),
    /// The outcome of `Task::ReadOnBattery` and of `Task::ReadLidIsClosed`.
    Read(Result<bool, String>),
    /// The outcome of `Task::Suspend`.
    Suspended(Result<(), String>),
    /// What `Task::Watch` waited for.
    Signalled(Signal),
    /// The time of `Task::Pause` has passed.
    Elapsed,
}

/// An event by its text.
pub enum EventView<I> {
    Attached(Result<(), Seq<char>>),
    Inhibited(Result<I, Seq<char>>),
    Opened(Result<(), Seq<char>>),
    Read(Result<bool, Seq<char>>),
    Suspended(Result<(), Seq<char>>),
    Signalled(SignalView),
    Elapsed,
}

impl<I> View for Event<I> {
    type V = EventView<I>;

    open spec fn view(&self) -> EventView<I> {
        match self {
            Event::Attached(outcome) => EventView::Attached(text::outcome(*outcome)),
            Event::Inhibited(Ok(inhibitor)) => EventView::Inhibited(Ok(*inhibitor)),
            Event::Inhibited(Err(error)) => EventView::Inhibited(Err(error@)),
            Event::Opened(outcome) => EventView::Opened(text::outcome(*outcome)),
            Event::Read(Ok(value)) => EventView::Read(Ok(*value)),
            Event::Read(Err(error)) => EventView::Read(Err(error@)),
            Event::Suspended(outcome) => EventView::Suspended(text::outcome(*outcome)),
            Event::Signalled(signal) => EventView::Signalled(signal@),
            Event::Elapsed => EventView::Elapsed,
        }
    }
}

/// The daemon on one bus connection. Dropping it lets the inhibitor go.
#[derive(Debug)]
pub struct Daemon<I> {
    dry_run: bool,
    task: Task,
    policy: PolicyEngine,
    last_observed: Option<Observation>,
    inhibitor: Option<I>,
}

/// The state of a daemon.
pub struct DaemonView<I> {
    /// Whether suspends are only logged.
    pub dry_run: bool,
    /// The work that is due.
    pub task: TaskView,
    /// Whether the last reading was unsafe.
    pub latched: bool,
    /// The last reading.
    pub last_observed: Option<Observation>,
    /// The inhibitor, once it is granted.
    pub inhibitor: Option<I>,
}

impl<I> View for Daemon<I> {
    type V = DaemonView<I>;

    closed spec fn view(&self) -> DaemonView<I> {
        DaemonView {
            dry_run: self.dry_run,
            task: self.task@,
            latched: self.policy@,
            last_observed: self.last_observed,
            inhibitor: self.inhibitor,
        }
    }
}

/// The one inhibitor that the daemon asks for.
pub open spec fn inhibit_task() -> TaskView {
    TaskView::Inhibit {
        what: INHIBIT_WHAT@,
        who: INHIBIT_WHO@,
        why: INHIBIT_WHY@,
        mode: INHIBIT_MODE@,
    }
}

/// The pause before the next epoch.
pub open spec fn pause_task() -> TaskView {
    TaskView::Pause { seconds: RETRY_SECONDS }
}

/// The log line for the inhibitor that logind granted.
pub open spec fn inhibited_line() -> Seq<char> {
    "INFO inhibitor acquired what=handle-lid-switch mode=block"@
}

/// The log line for an epoch that broke off.
pub open spec fn epoch_failed_line(error: Seq<char>) -> Seq<char> {
    "ERROR UPower epoch failed: "@ + error
}

/// The log line for a service with a new owner, and what is built again because of it.
pub open spec fn owner_changed_line(service: Seq<char>, rebuilt: Seq<char>) -> Seq<char> {
    "WARN D-Bus owner changed service="@ + service + "; rebuilding "@ + rebuilt + " epoch"@
}

/// A state and the lines logged on the way to it.
pub struct Move<I> {
    pub state: DaemonView<I>,
    pub log: Seq<Seq<char>>,
}

/// A daemon before its first piece of work.
pub open spec fn fresh<I>(dry_run: bool) -> DaemonView<I> {
    DaemonView {
        dry_run,
        task: TaskView::Attach,
        latched: false,
        last_observed: None,
        inhibitor: None,
    }
}

impl<I> DaemonView<I> {
    /// The same state with other work due.
    pub open spec fn with_task(self, task: TaskView) -> DaemonView<I> {
        DaemonView { task, ..self }
    }

    /// The run is over.
    pub open spec fn finished(self, outcome: Result<(), Seq<char>>) -> Move<I> {
        self.quietly(TaskView::Finish(outcome))
    }

    /// Moves on to other work, logging nothing.
    pub open spec fn quietly(self, task: TaskView) -> Move<I> {
        Move { state: self.with_task(task), log: Seq::empty() }
    }

    /// The epoch broke off: log it, pause, and keep everything else.
    pub open spec fn epoch_failed(self, error: Seq<char>) -> Move<I> {
        Move { state: self.with_task(pause_task()), log: seq![epoch_failed_line(error)] }
    }

    /// The epoch ended. A new owner of UPower costs the subscription to UPower alone; a new owner
    /// of logind, or the end of the bus, ends the run.
    pub open spec fn epoch_ended(self, end: EpochEnd) -> Move<I> {
        match end {
            EpochEnd::UpowerOwnerChanged => Move {
                state: self.with_task(pause_task()),
                log: seq![owner_changed_line(UPOWER_NAME@, "UPower"@)],
            },
            EpochEnd::LogindOwnerChanged => Move {
                state: self.with_task(TaskView::Finish(Ok(()))),
                log: seq![owner_changed_line(LOGIND_NAME@, "daemon"@)],
            },
            EpochEnd::SystemBusEnded => self.finished(
                Err("system D-Bus owner signal stream ended"@),
            ),
        }
    }

    /// A reading is complete: remember it, and suspend if that is due and this is no dry run.
    pub open spec fn observed(self, observed: Observation, reason: Seq<char>) -> Move<I> {
        Move {
            state: DaemonView {
                task: if policy::suspend_due(self.latched, observed) && !self.dry_run {
                    TaskView::Suspend { interactive: false }
                } else {
                    TaskView::Watch
                },
                latched: policy::is_unsafe(observed),
                last_observed: Some(observed),
                ..self
            },
            log: evaluate::evaluation_log(
                self.latched,
                self.last_observed,
                observed,
                reason,
                self.dry_run,
            ),
        }
    }

    /// A signal came.
    pub open spec fn signalled(self, signal: SignalView) -> Move<I> {
        match epoch::reaction(signal) {
            ReactionView::Ignore => self.quietly(TaskView::Watch),
            ReactionView::Evaluate(reason) => self.quietly(TaskView::ReadOnBattery { reason }),
            ReactionView::End(end) => self.epoch_ended(end),
            ReactionView::Fail(error) => self.epoch_failed(error),
        }
    }

    /// Whether the event reports on the work that is due.
    pub open spec fn awaits(self, event: EventView<I>) -> bool {
        match event {
            EventView::Attached(_) => self.task is Attach,
            EventView::Inhibited(_) => self.task is Inhibit,
            EventView::Opened(_) => self.task is OpenEpoch,
            EventView::Read(_) => self.task is ReadOnBattery || self.task is ReadLidIsClosed,
            EventView::Suspended(_) => self.task is Suspend,
            EventView::Signalled(_) => self.task is Watch,
            EventView::Elapsed => self.task is Pause,
        }
    }

    /// Where the event leads, or `None` if it does not belong to the work that is due.
    pub open spec fn next(self, event: EventView<I>) -> Option<Move<I>> {
        match (self.task, event) {
            (TaskView::Attach, EventView::Attached(Ok(()))) => Some(self.quietly(inhibit_task())),
            (TaskView::Attach, EventView::Attached(Err(error))) => Some(
                self.finished(Err(error)),
            ),
            (TaskView::Inhibit { .. }, EventView::Inhibited(Ok(inhibitor))) => Some(
                Move {
                    state: DaemonView {
                        task: TaskView::OpenEpoch,
                        inhibitor: Some(inhibitor),
                        ..self
                    },
                    log: seq![inhibited_line()],
                },
            ),
            (TaskView::Inhibit { .. }, EventView::Inhibited(Err(error))) => Some(
                self.finished(Err(error)),
            ),
            (TaskView::OpenEpoch, EventView::Opened(Ok(()))) => Some(
                self.quietly(TaskView::ReadOnBattery { reason: "startup"@ }),
            ),
            (TaskView::OpenEpoch, EventView::Opened(Err(error))) => Some(self.epoch_failed(error)),
            (TaskView::ReadOnBattery { reason }, EventView::Read(Ok(on_battery))) => Some(
                self.quietly(TaskView::ReadLidIsClosed { reason, on_battery }),
            ),
            (TaskView::ReadLidIsClosed { reason, on_battery }, EventView::Read(Ok(lid_closed))) =>
            Some(self.observed((on_battery, lid_closed), reason)),
            (TaskView::ReadOnBattery { .. }, EventView::Read(Err(error))) => Some(
                self.epoch_failed(error),
            ),
            (TaskView::ReadLidIsClosed { .. }, EventView::Read(Err(error))) => Some(
                self.epoch_failed(error),
            ),
            (TaskView::Suspend { .. }, EventView::Suspended(outcome)) => Some(
                Move {
                    state: self.with_task(TaskView::Watch),
                    log: evaluate::suspend_outcome_log(outcome),
                },
            ),
            (TaskView::Watch, EventView::Signalled(signal)) => Some(self.signalled(signal)),
            (TaskView::Pause { .. }, EventView::Elapsed) => Some(self.quietly(TaskView::OpenEpoch)),
            _ => None,
        }
    }
}

impl<I> Daemon<I> {
    /// A daemon before its first piece of work.
    pub fn new(dry_run: bool) -> (daemon: Self)
        ensures
            daemon@ == fresh::<I>(dry_run),
    {
        Daemon {
            dry_run,
            task: Task::Attach,
            policy: PolicyEngine::default(),
            last_observed: None,
            inhibitor: None,
        }
    }

    /// The work that is due.
    pub fn task(&self) -> (task: &Task)
        ensures
            task@ == self@.task,
    {
        &self.task
    }

    /// The inhibitor, once it is granted.
    pub fn inhibitor(&self) -> (inhibitor: Option<&I>)
        ensures
            inhibitor == (match self@.inhibitor {
                Some(held) => Some(&held),
                None => None,
            }),
    {
        self.inhibitor.as_ref()
    }

    /// Logs that the epoch broke off, and pauses.
    fn fail_epoch(&mut self, error: String) -> (log: Vec<String>)
        ensures
            final(self)@ == old(self)@.epoch_failed(error@).state,
            text::texts(log@) == old(self)@.epoch_failed(error@).log,
    {
        self.task = Task::Pause { seconds: RETRY_SECONDS };
        let mut log: Vec<String> = Vec::new();
        log.push(text::line("ERROR UPower epoch failed: ", error.as_str()));
        assert(text::texts(log@) =~= seq![epoch_failed_line(error@)]);
        log
    }

    /// Follows up on an epoch that ended without an error.
    fn end_epoch(&mut self, end: EpochEnd) -> (log: Vec<String>)
        ensures
            final(self)@ == old(self)@.epoch_ended(end).state,
            text::texts(log@) == old(self)@.epoch_ended(end).log,
    {
        let ghost ended = self@.epoch_ended(end);
        let mut log: Vec<String> = Vec::new();
        match end {
            EpochEnd::UpowerOwnerChanged => {
                log.push(show_owner_change(UPOWER_NAME, "UPower"));
                self.task = Task::Pause { seconds: RETRY_SECONDS };
            },
            EpochEnd::LogindOwnerChanged => {
                log.push(show_owner_change(LOGIND_NAME, "daemon"));
                self.task = Task::Finish(Ok(()));
            },
            EpochEnd::SystemBusEnded => {
                self.task =
                Task::Finish(Err("system D-Bus owner signal stream ended".to_owned()));
            },
        }
        assert(text::texts(log@) =~= ended.log);
        log
    }

    /// Takes a complete reading.
    fn observe(&mut self, observed: Observation, reason: String) -> (log: Vec<String>)
        ensures
            final(self)@ == old(self)@.observed(observed, reason@).state,
            text::texts(log@) == old(self)@.observed(observed, reason@).log,
    {
        let evaluation = evaluate::evaluate(
            &mut self.policy,
            &mut self.last_observed,
            observed,
            reason.as_str(),
            self.dry_run,
        );
        self.task =
        if evaluation.suspend {
            Task::Suspend { interactive: false }
        } else {
            Task::Watch
        };
        evaluation.log
    }

    /// Takes a signal.
    fn signal(&mut self, signal: Signal) -> (log: Vec<String>)
        ensures
            final(self)@ == old(self)@.signalled(signal@).state,
            text::texts(log@) == old(self)@.signalled(signal@).log,
    {
        match epoch::react(signal) {
            Reaction::Ignore => {
                self.task = Task::Watch;
                no_lines()
            },
            Reaction::Evaluate(reason) => {
                self.task = Task::ReadOnBattery { reason };
                no_lines()
            },
            Reaction::End(end) => self.end_epoch(end),
            Reaction::Fail(error) => self.fail_epoch(error),
        }
    }

    /// Reports how the work that was due went. Gives the lines to log before the next piece of
    /// work, or `None`, with nothing changed, if the event does not belong to the work.
    pub fn complete(&mut self, event: Event<I>) -> (log: Option<Vec<String>>)
        ensures
            match old(self)@.next(event@) {
                Some(moved) => final(self)@ == moved.state && (log matches Some(lines)
                    && text::texts(lines@) == moved.log),
                None => *final(self) == *old(self) && log is None,
            },
    {
        match event {
            Event::Attached(outcome) => match self.task {
                Task::Attach => {
                    match outcome {
                        Ok(()) => {
                            self.task =
                            Task::Inhibit {
                                what: INHIBIT_WHAT,
                                who: INHIBIT_WHO,
                                why: INHIBIT_WHY,
                                mode: INHIBIT_MODE,
                            };
                        },
                        Err(error) => {
                            self.task = Task::Finish(Err(error));
                        },
                    }
                    Some(no_lines())
                },
                _ => None,
            },
            Event::Inhibited(outcome) => match self.task {
                Task::Inhibit { .. } => match outcome {
                    Ok(inhibitor) => {
                        self.inhibitor = Some(inhibitor);
                        self.task = Task::OpenEpoch;
                        let mut log: Vec<String> = Vec::new();
                        log.push(
                            "INFO inhibitor acquired what=handle-lid-switch mode=block".to_owned(),
                        );
                        assert(text::texts(log@) =~= seq![inhibited_line()]);
                        Some(log)
                    },
                    Err(error) => {
                        self.task = Task::Finish(Err(error));
                        Some(no_lines())
                    },
                },
                _ => None,
            },
            Event::Opened(outcome) => match self.task {
                Task::OpenEpoch => match outcome {
                    Ok(()) => {
                        self.task = Task::ReadOnBattery { reason: "startup".to_owned() };
                        Some(no_lines())
                    },
                    Err(error) => Some(self.fail_epoch(error)),
                },
                _ => None,
            },
            Event::Read(outcome) => match &self.task {
                Task::ReadOnBattery { reason } => match outcome {
                    Ok(on_battery) => {
                        let reason = reason.clone();
                        self.task = Task::ReadLidIsClosed { reason, on_battery };
                        Some(no_lines())
                    },
                    Err(error) => Some(self.fail_epoch(error)),
                },
                Task::ReadLidIsClosed { reason, on_battery } => match outcome {
                    Ok(lid_closed) => {
                        let reason = reason.clone();
                        let on_battery = *on_battery;
                        Some(self.observe((on_battery, lid_closed), reason))
                    },
                    Err(error) => Some(self.fail_epoch(error)),
                },
                _ => None,
            },
            Event::Suspended(outcome) => match self.task {
                Task::Suspend { .. } => {
                    self.task = Task::Watch;
                    Some(evaluate::suspend_outcome(outcome))
                },
                _ => None,
            },
            Event::Signalled(signal) => match self.task {
                Task::Watch => Some(self.signal(signal)),
                _ => None,
            },
            Event::Elapsed => match self.task {
                Task::Pause { .. } => {
                    self.task = Task::OpenEpoch;
                    Some(no_lines())
                },
                _ => None,
            },
        }
    }
}

/// No lines to log.
fn no_lines() -> (log: Vec<String>)
    ensures
        text::texts(log@) == Seq::<Seq<char>>::empty(),
{
    let log: Vec<String> = Vec::new();
    assert(text::texts(log@) =~= Seq::<Seq<char>>::empty());
    log
}

/// Builds the log line for a service with a new owner.
fn show_owner_change(service: &str, rebuilt: &str) -> (line: String)
    ensures
        line@ == owner_changed_line(service@, rebuilt@),
{
    let mut line = text::line("WARN D-Bus owner changed service=", service);
    line.append("; rebuilding ");
    line.append(rebuilt);
    line.append(" epoch");
    line
}

} // verus!
