use wallet::platform::{Profile, Target, TargetOs};
use wallet::startup::{Action, Event, Phase, Startup};

fn machine(profile: Profile) -> Startup {
    Startup::new(Target::new(TargetOs::Linux, profile))
}

#[test]
fn debug_build_installs_logging_before_run() {
    let mut s = machine(Profile::Debug);
    assert_eq!(s.phase, Phase::Idle);
    assert_eq!(s.step(Event::Launch), Action::RegisterPlugins);
    assert_eq!(s.phase, Phase::Configured);
    assert_eq!(s.step(Event::SetupEntered), Action::InstallLogging);
    assert_eq!(s.phase, Phase::AwaitingLogging);
    assert!(!s.logging_installed);
    assert_eq!(s.step(Event::LoggingInstalled), Action::StartRunLoop);
    assert_eq!(s.phase, Phase::Running);
    assert!(s.logging_installed);
}

#[test]
fn release_build_never_installs_logging() {
    let mut s = machine(Profile::Release);
    assert_eq!(s.step(Event::Launch), Action::RegisterPlugins);
    assert_eq!(s.step(Event::SetupEntered), Action::StartRunLoop);
    assert_eq!(s.phase, Phase::Running);
    assert_eq!(s.step(Event::LoggingInstalled), Action::Ignore);
    assert!(!s.logging_installed);
}

#[test]
fn logging_failure_aborts_start() {
    let mut s = machine(Profile::Debug);
    s.step(Event::Launch);
    s.step(Event::SetupEntered);
    assert_eq!(s.step(Event::LoggingFailed), Action::Abort);
    assert_eq!(s.phase, Phase::Aborted);
    for e in [Event::Launch, Event::SetupEntered, Event::LoggingInstalled, Event::LoggingFailed] {
        assert_eq!(s.step(e), Action::Ignore);
        assert_eq!(s.phase, Phase::Aborted);
    }
    assert!(!s.logging_installed);
}

#[test]
fn events_out_of_order_are_ignored() {
    let mut s = machine(Profile::Debug);
    assert_eq!(s.step(Event::SetupEntered), Action::Ignore);
    assert_eq!(s.step(Event::LoggingInstalled), Action::Ignore);
    assert_eq!(s.phase, Phase::Idle);
    s.step(Event::Launch);
    assert_eq!(s.step(Event::Launch), Action::Ignore);
    assert_eq!(s.step(Event::LoggingFailed), Action::Ignore);
    assert_eq!(s.phase, Phase::Configured);
}

#[test]
fn running_process_ignores_further_events() {
    let mut s = machine(Profile::Debug);
    s.step(Event::Launch);
    s.step(Event::SetupEntered);
    s.step(Event::LoggingInstalled);
    assert_eq!(s.step(Event::LoggingFailed), Action::Ignore);
    assert_eq!(s.step(Event::SetupEntered), Action::Ignore);
    assert_eq!(s.phase, Phase::Running);
}
