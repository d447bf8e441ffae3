//! The process around the daemon, as a state machine: it installs the signal handlers, runs the
//! daemon over and over, and ends on a signal.

use vstd::prelude::*;

use crate::bus::RETRY_SECONDS;
use crate::cli::{EXIT_FAILURE, EXIT_SUCCESS};
use crate::text;

verus! {

/// The piece of outside work that is due.
#[derive(Debug, Clone, Copy, PartialEq, Eq, Structural)]
pub enum Duty {
    /// Install the handler for SIGTERM.
    CatchTerminate,
    /// Install the handler for SIGINT.
    CatchInterrupt,
    /// Run the daemon until it ends or a signal comes.
    RunDaemon,
    /// Sleep until the time has passed or a signal comes.
    Pause { seconds: u64 },
    /// End the process.
    Exit { code: u8 },
}

/// How a piece of outside work went. Errors are given by their message.
#[derive(Debug, PartialEq, Eq)]
pub enum Report {
    /// The outcome of installing a handler.
    Caught(Result<(), String>),
    /// SIGTERM came.
    Terminated,
    /// SIGINT came.
    Interrupted,
    /// The daemon ended.
    DaemonEnded(Result<(), String>),
    /// The time of the pause has passed.
    Elapsed,
}

/// A report by its text.
pub enum ReportView {
    Caught(Result<(), Seq<char>>),
    Terminated,
    Interrupted,
    DaemonEnded(Result<(), Seq<char>>),
    Elapsed,
}

impl View for Report {
    type V = ReportView;

    open spec fn view(&self) -> ReportView {
        match self {
            Report::Caught(outcome) => ReportView::Caught(text::outcome(*outcome)),
            Report::Terminated => ReportView::Terminated,
            Report::Interrupted => ReportView::Interrupted,
            Report::DaemonEnded(outcome) => ReportView::DaemonEnded(text::outcome(*outcome)),
            Report::Elapsed => ReportView::Elapsed,
        }
    }
}

/// The next duty, and the lines logged on the way to it.
pub struct Progress {
    pub duty: Duty,
    pub log: Seq<Seq<char>>,
}

/// Goes on to the duty, logging nothing.
pub open spec fn silently(duty: Duty) -> Option<Progress> {
    Some(Progress { duty, log: Seq::empty() })
}

/// Goes on to the duty, logging one line.
pub open spec fn saying(duty: Duty, line: Seq<char>) -> Option<Progress> {
    Some(Progress { duty, log: seq![line] })
}

/// Where the report leads, or `None` if it does not belong to the duty.
pub open spec fn progress(duty: Duty, report: ReportView) -> Option<Progress> {
    match (duty, report) {
        (Duty::CatchTerminate, ReportView::Caught(Ok(()))) => silently(Duty::CatchInterrupt),
        (Duty::CatchTerminate, ReportView::Caught(Err(error))) => saying(
            Duty::Exit { code: EXIT_FAILURE },
            "ERROR cannot install SIGTERM handler: "@ + error,
        ),
        (Duty::CatchInterrupt, ReportView::Caught(Ok(()))) => silently(Duty::RunDaemon),
        (Duty::CatchInterrupt, ReportView::Caught(Err(error))) => saying(
            Duty::Exit { code: EXIT_FAILURE },
            "ERROR cannot install SIGINT handler: "@ + error,
        ),
        (Duty::RunDaemon, ReportView::Terminated) => saying(
            Duty::Exit { code: EXIT_SUCCESS },
            "INFO shutting down signal=SIGTERM"@,
        ),
        (Duty::RunDaemon, ReportView::Interrupted) => saying(
            Duty::Exit { code: EXIT_SUCCESS },
            "INFO shutting down signal=SIGINT"@,
        ),
        (Duty::RunDaemon, ReportView::DaemonEnded(Ok(()))) => silently(
            Duty::Pause { seconds: RETRY_SECONDS },
        ),
        (Duty::RunDaemon, ReportView::DaemonEnded(Err(error))) => saying(
            Duty::Pause { seconds: RETRY_SECONDS },
            "ERROR daemon epoch failed: "@ + error,
        ),
        (Duty::Pause { .. }, ReportView::Terminated) => silently(Duty::Exit { code: EXIT_SUCCESS }),
        (Duty::Pause { .. }, ReportView::Interrupted) => silently(
            Duty::Exit { code: EXIT_SUCCESS },
        ),
        (Duty::Pause { .. }, ReportView::Elapsed) => silently(Duty::RunDaemon),
        _ => None,
    }
}

/// The process around the daemon.
#[derive(Debug)]
pub struct Supervisor {
    duty: Duty,
}

/// The supervisor is the duty that is due.
impl View for Supervisor {
    type V = Duty;

    closed spec fn view(&self) -> Duty {
        self.duty
    }
}

impl Default for Supervisor {
    /// A process before its first duty.
    fn default() -> (supervisor: Self)
        ensures
            supervisor@ == Duty::CatchTerminate,
    {
        Supervisor { duty: Duty::CatchTerminate }
    }
}

impl Supervisor {
    /// The duty that is due.
    pub fn duty(&self) -> (duty: Duty)
        ensures
            duty == self@,
    {
        self.duty
    }

    /// Goes on to the duty, logging the given line if there is one.
    fn proceed(&mut self, duty: Duty, line: Option<String>) -> (log: Option<Vec<String>>)
        ensures
            final(self)@ == duty,
            log matches Some(lines) && text::texts(lines@) == (match line {
                Some(said) => seq![said@],
                None => Seq::empty(),
            }),
    {
        self.duty = duty;
        let ghost said = line;
        let mut log: Vec<String> = Vec::new();
        if let Some(line) = line {
            log.push(line);
        }
        assert(text::texts(log@) =~= (match said {
            Some(said) => seq![said@],
            None => Seq::empty(),
        }));
        Some(log)
    }

    /// Reports how the duty went. Gives the lines to log before the next duty, or `None`, with
    /// nothing changed, if the report does not belong to the duty.
    pub fn report(&mut self, report: Report) -> (log: Option<Vec<String>>)
        ensures
            match progress(old(self)@, report@) {
                Some(next) => final(self)@ == next.duty && (log matches Some(lines)
                    && text::texts(lines@) == next.log),
                None => *final(self) == *old(self) && log is None,
            },
    {
        match (self.duty, report) {
            (Duty::CatchTerminate, Report::Caught(Ok(()))) => self.proceed(
                Duty::CatchInterrupt,
                None,
            ),
            (Duty::CatchTerminate, Report::Caught(Err(error))) => self.proceed(
                Duty::Exit { code: EXIT_FAILURE },
                Some(text::line("ERROR cannot install SIGTERM handler: ", error.as_str())),
            ),
            (Duty::CatchInterrupt, Report::Caught(Ok(()))) => self.proceed(Duty::RunDaemon, None),
            (Duty::CatchInterrupt, Report::Caught(Err(error))) => self.proceed(
                Duty::Exit { code: EXIT_FAILURE },
                Some(text::line("ERROR cannot install SIGINT handler: ", error.as_str())),
            ),
            (Duty::RunDaemon, Report::Terminated) => self.proceed(
                Duty::Exit { code: EXIT_SUCCESS },
                Some("INFO shutting down signal=SIGTERM".to_owned()),
            ),
            (Duty::RunDaemon, Report::Interrupted) => self.proceed(
                Duty::Exit { code: EXIT_SUCCESS },
                Some("INFO shutting down signal=SIGINT".to_owned()),
            ),
            (Duty::RunDaemon, Report::DaemonEnded(Ok(()))) => self.proceed(
                Duty::Pause { seconds: RETRY_SECONDS },
                None,
            ),
            (Duty::RunDaemon, Report::DaemonEnded(Err(error))) => self.proceed(
                Duty::Pause { seconds: RETRY_SECONDS },
                Some(text::line("ERROR daemon epoch failed: ", error.as_str())),
            ),
            (Duty::Pause { .. }, Report::Terminated) => self.proceed(
                Duty::Exit { code: EXIT_SUCCESS },
                None,
            ),
            (Duty::Pause { .. }, Report::Interrupted) => self.proceed(
                Duty::Exit { code: EXIT_SUCCESS },
                None,
            ),
            (Duty::Pause { .. }, Report::Elapsed) => self.proceed(Duty::RunDaemon, None),
            _ => None,
        }
    }
}

/// Whether the report belongs to the duty: handlers are installed before anything else, and a
/// signal counts both while the daemon runs and during the pause.
pub open spec fn belongs(duty: Duty, report: ReportView) -> bool {
    match report {
        ReportView::Caught(_) => duty is CatchTerminate || duty is CatchInterrupt,
        ReportView::Terminated | ReportView::Interrupted => duty is RunDaemon || duty is Pause,
        ReportView::DaemonEnded(_) => duty is RunDaemon,
        ReportView::Elapsed => duty is Pause,
    }
}

/// A report is refused exactly when it does not belong to the duty.
pub proof fn reports_are_refused_only_out_of_turn(duty: Duty, report: ReportView)
    ensures
        progress(duty, report) is Some <==> belongs(duty, report),
{
}

/// The process ends with success exactly when a signal comes, and as a failure exactly when a
/// handler cannot be installed.
pub proof fn what_ends_the_process(duty: Duty, report: ReportView)
    requires
        progress(duty, report) is Some,
    ensures
        progress(duty, report)->0.duty == (Duty::Exit { code: EXIT_SUCCESS }) <==> report
            is Terminated || report is Interrupted,
        progress(duty, report)->0.duty == (Duty::Exit { code: EXIT_FAILURE }) <==> (
        report matches ReportView::Caught(Err(_))),
{
}

/// However the daemon ends, it is run again after a pause.
pub proof fn the_daemon_is_run_again(outcome: Result<(), Seq<char>>)
    ensures
        progress(Duty::RunDaemon, ReportView::DaemonEnded(outcome)) matches Some(next)
            && progress(next.duty, ReportView::Elapsed) == silently(Duty::RunDaemon),
{
}

/// Which reports are taken at which duty.
pub proof fn reports_are_taken_in_turn(duty: Duty, report: ReportView)
    ensures
        progress(duty, report) is Some <==> match report {
            ReportView::Caught(_) => duty is CatchTerminate || duty is CatchInterrupt,
            ReportView::Terminated => duty is RunDaemon || duty is Pause,
            ReportView::Interrupted => duty is RunDaemon || duty is Pause,
            ReportView::DaemonEnded(_) => duty is RunDaemon,
            ReportView::Elapsed => duty is Pause,
        },
{
}

/// When each duty comes up. The handlers are installed once, SIGTERM's first; however the daemon
/// ended and whatever its error says, the pause is one second; a signal exits with 0, and a
/// handler that cannot be installed with 1.
pub proof fn when_each_duty_comes_up(duty: Duty, report: ReportView)
    requires
        progress(duty, report) is Some,
    ensures
        ({
            let next = progress(duty, report)->0.duty;
            &&& next !is CatchTerminate
            &&& next is CatchInterrupt <==> duty is CatchTerminate && (
            report matches ReportView::Caught(Ok(_)))
            &&& next is RunDaemon <==> (duty is CatchInterrupt && (
            report matches ReportView::Caught(Ok(_)))) || report is Elapsed
            &&& next is Pause <==> report is DaemonEnded
            &&& next is Pause ==> next == (Duty::Pause { seconds: 1 })
            &&& next is Exit <==> report is Terminated || report is Interrupted || (
            report matches ReportView::Caught(Err(_)))
            &&& report is Terminated || report is Interrupted ==> next == (Duty::Exit { code: 0 })
            &&& (report matches ReportView::Caught(Err(_))) ==> next == (Duty::Exit { code: 1 })
        }),
{
}

/// What is logged: every error with its own words, a signal that stops the daemon by its name,
/// and nothing else.
pub proof fn what_the_process_logs(duty: Duty, seconds: u64, error: Seq<char>)
    ensures
        progress(Duty::CatchTerminate, ReportView::Caught(Err(error)))->0.log
            == seq!["ERROR cannot install SIGTERM handler: "@ + error],
        progress(Duty::CatchInterrupt, ReportView::Caught(Err(error)))->0.log
            == seq!["ERROR cannot install SIGINT handler: "@ + error],
        progress(Duty::RunDaemon, ReportView::Terminated)->0.log
            == seq!["INFO shutting down signal=SIGTERM"@],
        progress(Duty::RunDaemon, ReportView::Interrupted)->0.log
            == seq!["INFO shutting down signal=SIGINT"@],
        progress(Duty::RunDaemon, ReportView::DaemonEnded(Err(error)))->0.log
            == seq!["ERROR daemon epoch failed: "@ + error],
        progress(Duty::RunDaemon, ReportView::DaemonEnded(Ok(())))->0.log.len() == 0,
        duty is CatchTerminate || duty is CatchInterrupt ==> progress(
            duty,
            ReportView::Caught(Ok(())),
        )->0.log.len() == 0,
        progress(Duty::Pause { seconds }, ReportView::Terminated)->0.log.len() == 0,
        progress(Duty::Pause { seconds }, ReportView::Interrupted)->0.log.len() == 0,
        progress(Duty::Pause { seconds }, ReportView::Elapsed)->0.log.len() == 0,
{
}

/// The view of a report keeps all that it holds.
pub proof fn views_keep_every_report(error: String)
    ensures
        Report::Caught(Ok(()))@ == ReportView::Caught(Ok(())),
        Report::Caught(Err(error))@ == ReportView::Caught(Err(error@)),
        Report::Terminated@ == ReportView::Terminated,
        Report::Interrupted@ == ReportView::Interrupted,
        Report::DaemonEnded(Ok(()))@ == ReportView::DaemonEnded(Ok(())),
        Report::DaemonEnded(Err(error))@ == ReportView::DaemonEnded(Err(error@)),
        Report::Elapsed@ == ReportView::Elapsed,
{
}

} // verus!
