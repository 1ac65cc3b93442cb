//! The start-up sequence of the shell as a state machine. The host framework
//! reports what happened (an `Event`); the machine answers with what to do
//! next (an `Action`).
use vstd::prelude::*;
use crate::platform::{Profile, Target};

verus! {

/// How far start-up has come.
#[derive(Clone, Copy, Debug, PartialEq, Eq, Structural)]
pub enum Phase {
    /// Nothing has happened yet.
    Idle,
    /// The capabilities are registered; the setup hook has not run.
    Configured,
    /// The setup hook asked for logging and waits for the outcome.
    AwaitingLogging,
    /// The run loop has been started.
    Running,
    /// Start-up failed; the run loop never starts.
    Aborted,
}

/// What the host framework reports.
#[derive(Clone, Copy, Debug, PartialEq, Eq, Structural)]
pub enum Event {
    /// The process was launched.
    Launch,
    /// The framework entered the setup hook.
    SetupEntered,
    /// The logging capability was installed.
    LoggingInstalled,
    /// Installing the logging capability failed.
    LoggingFailed,
}

/// What the shell is to do next.
#[derive(Clone, Copy, Debug, PartialEq, Eq, Structural)]
pub enum Action {
    /// Register the capabilities of the build's plan.
    RegisterPlugins,
    /// Install the logging capability at info verbosity.
    InstallLogging,
    /// Let the run loop start.
    StartRunLoop,
    /// Give up start-up with the error that was reported.
    Abort,
    /// The event does not apply in the current phase: do nothing.
    Ignore,
}

/// The start-up state of one process.
#[derive(Clone, Copy, Debug, PartialEq, Eq, Structural)]
pub struct Startup {
    pub target: Target,
    pub phase: Phase,
    pub logging_installed: bool,
}

pub open spec fn is_debug_spec(t: Target) -> bool {
    t.profile == Profile::Debug
}

/// The state before anything has happened.
pub open spec fn initial_spec(target: Target) -> Startup {
    Startup { target, phase: Phase::Idle, logging_installed: false }
}

/// One transition: the next state and the action to perform.
pub open spec fn step_spec(s: Startup, e: Event) -> (Startup, Action) {
    match (s.phase, e) {
        (Phase::Idle, Event::Launch) => (Startup { phase: Phase::Configured, ..s }, Action::RegisterPlugins),
        (Phase::Configured, Event::SetupEntered) => if is_debug_spec(s.target) {
            (Startup { phase: Phase::AwaitingLogging, ..s }, Action::InstallLogging)
        } else {
            (Startup { phase: Phase::Running, ..s }, Action::StartRunLoop)
        },
        (Phase::AwaitingLogging, Event::LoggingInstalled) => (
            Startup { phase: Phase::Running, logging_installed: true, ..s },
            Action::StartRunLoop,
        ),
        (Phase::AwaitingLogging, Event::LoggingFailed) => (Startup { phase: Phase::Aborted, ..s }, Action::Abort),
        _ => (s, Action::Ignore),
    }
}

/// The state after the events `evs`, one after the other, from `s`.
pub open spec fn after(s: Startup, evs: Seq<Event>) -> Startup
    decreases evs.len(),
{
    if evs.len() == 0 {
        s
    } else {
        step_spec(after(s, evs.drop_last()), evs.last()).0
    }
}

/// The actions answered to the events `evs`, one for each, from `s`.
pub open spec fn trace(s: Startup, evs: Seq<Event>) -> Seq<Action>
    decreases evs.len(),
{
    if evs.len() == 0 {
        Seq::empty()
    } else {
        trace(s, evs.drop_last()).push(step_spec(after(s, evs.drop_last()), evs.last()).1)
    }
}

/// Stepping never changes the target, and gives one action per event.
proof fn lemma_run_shape(s: Startup, evs: Seq<Event>)
    ensures
        after(s, evs).target == s.target,
        trace(s, evs).len() == evs.len(),
    decreases evs.len(),
{
    if evs.len() > 0 {
        lemma_run_shape(s, evs.drop_last());
    }
}

/// Until the run loop is running, it has never been started.
proof fn lemma_no_start_before_running(target: Target, evs: Seq<Event>)
    ensures
        after(initial_spec(target), evs).phase != Phase::Running ==> !trace(initial_spec(target), evs).contains(
            Action::StartRunLoop,
        ),
    decreases evs.len(),
{
    if evs.len() > 0 {
        let d = evs.drop_last();
        lemma_no_start_before_running(target, d);
        let t = trace(initial_spec(target), evs);
        let td = trace(initial_spec(target), d);
        if after(initial_spec(target), evs).phase != Phase::Running {
            assert forall|k: int| 0 <= k < t.len() implies t[k] != Action::StartRunLoop by {
                if k < td.len() {
                    assert(t[k] == td[k]);
                }
            }
        }
    }
}

/// A release build never installs the logging capability: no action of any
/// run asks for it, no state reached has it, and none waits for it.
pub proof fn lemma_release_never_logs(target: Target, evs: Seq<Event>)
    requires
        target.profile == Profile::Release,
    ensures
        !trace(initial_spec(target), evs).contains(Action::InstallLogging),
        !after(initial_spec(target), evs).logging_installed,
        after(initial_spec(target), evs).phase != Phase::AwaitingLogging,
    decreases evs.len(),
{
    if evs.len() > 0 {
        let d = evs.drop_last();
        lemma_release_never_logs(target, d);
        lemma_run_shape(initial_spec(target), d);
        let t = trace(initial_spec(target), evs);
        let td = trace(initial_spec(target), d);
        assert forall|k: int| 0 <= k < t.len() implies t[k] != Action::InstallLogging by {
            if k < td.len() {
                assert(t[k] == td[k]);
            }
        }
    }
}

/// In a debug build the run loop starts only in answer to the report that
/// the logging capability was installed, after start-up asked for it; and a
/// running process has logging installed.
pub proof fn lemma_debug_logs_before_run(target: Target, evs: Seq<Event>)
    requires
        target.profile == Profile::Debug,
    ensures
        forall|i: int|
            0 <= i < evs.len() && #[trigger] trace(initial_spec(target), evs)[i] == Action::StartRunLoop ==> {
                &&& evs[i] == Event::LoggingInstalled
                &&& trace(initial_spec(target), evs).take(i).contains(Action::InstallLogging)
            },
        after(initial_spec(target), evs).phase == Phase::Running ==> after(initial_spec(target), evs).logging_installed,
        (after(initial_spec(target), evs).phase == Phase::AwaitingLogging || after(initial_spec(target), evs).phase
            == Phase::Running || after(initial_spec(target), evs).phase == Phase::Aborted) ==> trace(
            initial_spec(target),
            evs,
        ).contains(Action::InstallLogging),
    decreases evs.len(),
{
    if evs.len() > 0 {
        let s0 = initial_spec(target);
        let d = evs.drop_last();
        lemma_debug_logs_before_run(target, d);
        lemma_run_shape(s0, d);
        lemma_no_start_before_running(target, d);
        let t = trace(s0, evs);
        let td = trace(s0, d);
        let n = d.len() as int;
        assert(t.take(n) =~= td);
        assert forall|i: int| 0 <= i < evs.len() && #[trigger] t[i] == Action::StartRunLoop implies {
            &&& evs[i] == Event::LoggingInstalled
            &&& t.take(i).contains(Action::InstallLogging)
        } by {
            if i < n {
                assert(t[i] == td[i]);
                assert(evs[i] == d[i]);
                assert(t.take(i) =~= td.take(i));
            } else {
                assert(td.contains(Action::InstallLogging));
                assert(t.take(i) =~= td);
            }
        }
        if after(s0, d).phase == Phase::AwaitingLogging || after(s0, d).phase == Phase::Running || after(s0, d).phase
            == Phase::Aborted {
            let j = choose|j: int| 0 <= j < td.len() && td[j] == Action::InstallLogging;
            assert(t[j] == Action::InstallLogging);
        } else if after(s0, evs).phase == Phase::AwaitingLogging {
            assert(t[n] == Action::InstallLogging);
        }
    }
}

/// Once installing the logging capability has failed, start-up is aborted for
/// good: the run loop is never started, before or after the failure.
pub proof fn lemma_logging_failure_stops_start(target: Target, evs: Seq<Event>)
    ensures
        forall|i: int|
            0 <= i < evs.len() && #[trigger] evs[i] == Event::LoggingFailed && after(
                initial_spec(target),
                evs.take(i),
            ).phase == Phase::AwaitingLogging ==> {
                &&& !trace(initial_spec(target), evs).contains(Action::StartRunLoop)
                &&& after(initial_spec(target), evs).phase == Phase::Aborted
            },
    decreases evs.len(),
{
    if evs.len() > 0 {
        let s0 = initial_spec(target);
        let d = evs.drop_last();
        let n = d.len() as int;
        lemma_logging_failure_stops_start(target, d);
        lemma_run_shape(s0, d);
        lemma_no_start_before_running(target, d);
        let t = trace(s0, evs);
        let td = trace(s0, d);
        assert forall|i: int|
            0 <= i < evs.len() && #[trigger] evs[i] == Event::LoggingFailed && after(s0, evs.take(i)).phase
                == Phase::AwaitingLogging implies {
            &&& !t.contains(Action::StartRunLoop)
            &&& after(s0, evs).phase == Phase::Aborted
        } by {
            if i < n {
                assert(evs.take(i) =~= d.take(i));
                assert(evs[i] == d[i]);
            } else {
                assert(evs.take(i) =~= d);
            }
            assert forall|k: int| 0 <= k < t.len() implies t[k] != Action::StartRunLoop by {
                if k < n {
                    assert(t[k] == td[k]);
                }
            }
        }
    }
}

impl Startup {
    /// A process that has not been launched yet.
    pub fn new(target: Target) -> (r: Startup)
        ensures
            r == initial_spec(target),
    {
        Startup { target, phase: Phase::Idle, logging_installed: false }
    }

    /// Takes in what the framework reported and returns what to do next.
    pub fn step(&mut self, e: Event) -> (r: Action)
        ensures
            (*final(self), r) == step_spec(*old(self), e),
    {
        match (self.phase, e) {
            (Phase::Idle, Event::Launch) => {
                self.phase = Phase::Configured;
                Action::RegisterPlugins
            },
            (Phase::Configured, Event::SetupEntered) => {
                if self.target.is_debug() {
                    self.phase = Phase::AwaitingLogging;
                    Action::InstallLogging
                } else {
                    self.phase = Phase::Running;
                    Action::StartRunLoop
                }
            },
            (Phase::AwaitingLogging, Event::LoggingInstalled) => {
                self.phase = Phase::Running;
                self.logging_installed = true;
                Action::StartRunLoop
            },
            (Phase::AwaitingLogging, Event::LoggingFailed) => {
                self.phase = Phase::Aborted;
                Action::Abort
            },
            _ => Action::Ignore,
        }
    }
}

} // verus!
