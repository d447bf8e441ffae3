use omarchy_power_policy::cli::{launch, parse_dry_run, Launch};
use omarchy_power_policy::supervisor::{Duty, Report, Supervisor};

fn parse(arguments: &[&str]) -> Result<bool, &'static str> {
    let owned: Vec<String> = arguments.iter().map(|argument| argument.to_string()).collect();
    parse_dry_run(&owned)
}

#[test]
fn accepted_command_lines() {
    assert_eq!(parse(&[]), Ok(false));
    assert_eq!(parse(&["--dry-run"]), Ok(true));
}

#[test]
fn help_is_an_empty_error() {
    assert_eq!(parse(&["--help"]), Err(""));
    assert_eq!(parse(&["--dry-run", "--help"]), Err(""));
    assert_eq!(parse(&["--help", "--bogus"]), Err(""));
}

#[test]
fn refused_command_lines() {
    let refused = Err("unknown or duplicate argument");
    assert_eq!(parse(&["--dry-run", "--dry-run"]), refused);
    assert_eq!(parse(&["--dry-run", "--dry-run", "--help"]), refused);
    assert_eq!(parse(&["--bogus", "--help"]), refused);
    assert_eq!(parse(&[""]), refused);
}

#[test]
fn launches() {
    assert_eq!(launch(parse(&["--dry-run"])), Launch::Run { dry_run: true });
    assert_eq!(launch(parse(&[])), Launch::Run { dry_run: false });
    assert_eq!(
        launch(parse(&["--help"])),
        Launch::Help { usage: "Usage: omarchy-power-policy [--dry-run]", code: 0 }
    );
    assert_eq!(
        launch(parse(&["now"])),
        Launch::Refuse { line: "ERROR unknown or duplicate argument".to_string(), code: 2 }
    );
}

fn running() -> Supervisor {
    let mut supervisor = Supervisor::default();
    assert_eq!(supervisor.duty(), Duty::CatchTerminate);
    assert_eq!(supervisor.report(Report::Caught(Ok(()))), Some(Vec::new()));
    assert_eq!(supervisor.duty(), Duty::CatchInterrupt);
    assert_eq!(supervisor.report(Report::Caught(Ok(()))), Some(Vec::new()));
    assert_eq!(supervisor.duty(), Duty::RunDaemon);
    supervisor
}

#[test]
fn handlers_that_cannot_be_installed() {
    let mut terminate = Supervisor::default();
    assert_eq!(
        terminate.report(Report::Caught(Err("busy".to_string()))),
        Some(vec!["ERROR cannot install SIGTERM handler: busy".to_string()])
    );
    assert_eq!(terminate.duty(), Duty::Exit { code: 1 });

    let mut interrupt = Supervisor::default();
    interrupt.report(Report::Caught(Ok(())));
    assert_eq!(
        interrupt.report(Report::Caught(Err("busy".to_string()))),
        Some(vec!["ERROR cannot install SIGINT handler: busy".to_string()])
    );
    assert_eq!(interrupt.duty(), Duty::Exit { code: 1 });
}

#[test]
fn signals_while_the_daemon_runs() {
    let mut terminated = running();
    assert_eq!(
        terminated.report(Report::Terminated),
        Some(vec!["INFO shutting down signal=SIGTERM".to_string()])
    );
    assert_eq!(terminated.duty(), Duty::Exit { code: 0 });

    let mut interrupted = running();
    assert_eq!(
        interrupted.report(Report::Interrupted),
        Some(vec!["INFO shutting down signal=SIGINT".to_string()])
    );
    assert_eq!(interrupted.duty(), Duty::Exit { code: 0 });
}

#[test]
fn the_daemon_is_restarted_however_it_ends() {
    let mut supervisor = running();
    assert_eq!(
        supervisor.report(Report::DaemonEnded(Err("no bus".to_string()))),
        Some(vec!["ERROR daemon epoch failed: no bus".to_string()])
    );
    assert_eq!(supervisor.duty(), Duty::Pause { seconds: 1 });
    assert_eq!(supervisor.report(Report::Elapsed), Some(Vec::new()));
    assert_eq!(supervisor.duty(), Duty::RunDaemon);
    assert_eq!(supervisor.report(Report::DaemonEnded(Ok(()))), Some(Vec::new()));
    assert_eq!(supervisor.duty(), Duty::Pause { seconds: 1 });
}

#[test]
fn signals_during_the_pause_end_it_silently() {
    let mut terminated = running();
    terminated.report(Report::DaemonEnded(Ok(())));
    assert_eq!(terminated.report(Report::Terminated), Some(Vec::new()));
    assert_eq!(terminated.duty(), Duty::Exit { code: 0 });

    let mut interrupted = running();
    interrupted.report(Report::DaemonEnded(Ok(())));
    assert_eq!(interrupted.report(Report::Interrupted), Some(Vec::new()));
    assert_eq!(interrupted.duty(), Duty::Exit { code: 0 });
}

#[test]
fn reports_out_of_turn_are_refused() {
    let mut supervisor = running();
    assert_eq!(supervisor.report(Report::Elapsed), None);
    assert_eq!(supervisor.report(Report::Caught(Ok(()))), None);
    assert_eq!(supervisor.duty(), Duty::RunDaemon);
}
