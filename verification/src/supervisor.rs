//! The session supervisor: the phase machine over the process lifetime.
//!
//! The session moves through four phases.  **Bootstrap**: bind the two
//! listeners and write the announcement.  **StartupWait**: wait, under a
//! short grace watchdog, for the control pair.  **ControlActive**: spawn the
//! two mirrored strict shovels for the control pair, each under its own idle
//! watchdog.  **MediaLoop**: install the hard lifetime cap — the only point
//! it is ever installed, nothing resets it afterwards — and pair and relay
//! media connections indefinitely.  The session leaves the loop only by
//! termination: a watchdog firing or a strict shovel ending the process.
//!
//! Every timeout is configuration, not law: [`Timeouts`] carries the five
//! countdowns and [`Timeouts::defaults`] the representative values.

use vstd::prelude::*;

verus! {

/// Default startup grace window, in seconds: how long the session waits for
/// the control pair.
pub const STARTUP_GRACE_TICKS: i32 = 30;

/// Default hard cap on the whole process lifetime, in seconds.
pub const LIFETIME_CAP_TICKS: i32 = 3600;

/// Default idle window on each control-tunnel direction, in seconds: the
/// control protocol is expected to produce traffic at a bounded interval.
pub const CONTROL_IDLE_TICKS: i32 = 180;

/// Default wait for the first leg of a media pair, in seconds.
pub const MEDIA_FIRST_LEG_TICKS: i32 = 3600;

/// Default wait for the second leg of a media pair, in seconds.
pub const MEDIA_SECOND_LEG_TICKS: i32 = 10;

/// The five countdowns the session runs under.
#[derive(Clone, Copy, Debug, PartialEq, Eq, Structural)]
pub struct Timeouts {
    /// Grace window for obtaining the control pair.
    pub startup_grace: i32,
    /// Hard cap on the whole process lifetime.
    pub lifetime_cap: i32,
    /// Idle window on each control-tunnel direction.
    pub control_idle: i32,
    /// Wait for the first leg of a media pair.
    pub media_first_leg: i32,
    /// Wait for the second leg of a media pair.
    pub media_second_leg: i32,
}

impl Timeouts {
    /// Every countdown is positive.
    pub open spec fn wf(self) -> bool {
        &&& self.startup_grace > 0
        &&& self.lifetime_cap > 0
        &&& self.control_idle > 0
        &&& self.media_first_leg > 0
        &&& self.media_second_leg > 0
    }

    /// The representative default values.
    pub fn defaults() -> (t: Timeouts)
        ensures
            t.wf(),
            t.startup_grace == STARTUP_GRACE_TICKS,
            t.lifetime_cap == LIFETIME_CAP_TICKS,
            t.control_idle == CONTROL_IDLE_TICKS,
            t.media_first_leg == MEDIA_FIRST_LEG_TICKS,
            t.media_second_leg == MEDIA_SECOND_LEG_TICKS,
    {
        Timeouts {
            startup_grace: STARTUP_GRACE_TICKS,
            lifetime_cap: LIFETIME_CAP_TICKS,
            control_idle: CONTROL_IDLE_TICKS,
            media_first_leg: MEDIA_FIRST_LEG_TICKS,
            media_second_leg: MEDIA_SECOND_LEG_TICKS,
        }
    }
}

/// Where the session stands.
#[derive(Clone, Copy, Debug, PartialEq, Eq, Structural)]
pub enum Phase {
    /// Binding the listeners and writing the announcement.
    Bootstrap,
    /// Waiting for the control pair under the grace watchdog.
    StartupWait,
    /// Control pair obtained; its strict shovels are being spawned.
    ControlActive,
    /// Relaying media pairs indefinitely under the lifetime cap.
    MediaLoop,
    /// The process has been terminated.
    Terminated,
}

/// What happened, reported by the runner.
#[derive(Clone, Copy, Debug, PartialEq, Eq, Structural)]
pub enum SupervisorEvent {
    /// Listeners are bound and the announcement was written.
    BootstrapDone,
    /// One connection from each listener was accepted for the control pair.
    ControlPaired,
    /// Both strict shovels of the control tunnel are running.
    ControlShovelsSpawned,
    /// Some watchdog's countdown reached zero.
    WatchdogFired,
}

/// What the runner must do on a phase transition.
#[derive(Clone, Copy, Debug, PartialEq, Eq, Structural)]
pub enum SupervisorAction {
    /// Install `grace_ticks` in the startup watchdog, then block accepting
    /// the control pair, caller leg first.
    AwaitControl { grace_ticks: i32 },
    /// Spawn the two mirrored strict shovels for the control pair, each
    /// under its own idle watchdog of `idle_ticks`.
    SpawnControlShovels { idle_ticks: i32 },
    /// Install the hard lifetime cap of `lifetime_ticks`; nothing resets it
    /// afterwards.  Then enter the media loop.
    InstallLifetimeCap { lifetime_ticks: i32 },
    /// Terminate the whole process: failure exit code unless `success`.
    Terminate { success: bool },
    /// The event carries no duty in this phase.
    Ignore,
}

/// The phase after `e` arrives in phase `p`.
pub open spec fn next_phase(p: Phase, e: SupervisorEvent) -> Phase {
    match (p, e) {
        (Phase::Bootstrap, SupervisorEvent::BootstrapDone) => Phase::StartupWait,
        (Phase::StartupWait, SupervisorEvent::ControlPaired) => Phase::ControlActive,
        (Phase::ControlActive, SupervisorEvent::ControlShovelsSpawned) => Phase::MediaLoop,
        (_, SupervisorEvent::WatchdogFired) => Phase::Terminated,
        _ => p,
    }
}

/// The action `e` demands in phase `p`, under the countdowns `t`.
pub open spec fn step_action(t: Timeouts, p: Phase, e: SupervisorEvent) -> SupervisorAction {
    match (p, e) {
        (Phase::Bootstrap, SupervisorEvent::BootstrapDone) => (SupervisorAction::AwaitControl {
            grace_ticks: t.startup_grace,
        }),
        (Phase::StartupWait, SupervisorEvent::ControlPaired) => (
        SupervisorAction::SpawnControlShovels { idle_ticks: t.control_idle }),
        (Phase::ControlActive, SupervisorEvent::ControlShovelsSpawned) => (
        SupervisorAction::InstallLifetimeCap { lifetime_ticks: t.lifetime_cap }),
        (_, SupervisorEvent::WatchdogFired) => (SupervisorAction::Terminate { success: false }),
        _ => SupervisorAction::Ignore,
    }
}

/// The session supervisor.
pub struct Supervisor {
    /// The countdowns this session runs under.
    pub timeouts: Timeouts,
    /// Where the session stands.
    pub phase: Phase,
}

impl Supervisor {
    /// A fresh session, about to bootstrap.
    pub fn new(timeouts: Timeouts) -> (s: Supervisor)
        requires
            timeouts.wf(),
        ensures
            s.timeouts == timeouts,
            s.phase is Bootstrap,
    {
        Supervisor { timeouts, phase: Phase::Bootstrap }
    }

    /// Advance the session by one event and say what the runner must do.
    pub fn step(&mut self, e: SupervisorEvent) -> (a: SupervisorAction)
        ensures
            final(self).timeouts == old(self).timeouts,
            final(self).phase == next_phase(old(self).phase, e),
            a == step_action(old(self).timeouts, old(self).phase, e),
    {
        match (self.phase, e) {
            (Phase::Bootstrap, SupervisorEvent::BootstrapDone) => {
                self.phase = Phase::StartupWait;
                SupervisorAction::AwaitControl { grace_ticks: self.timeouts.startup_grace }
            },
            (Phase::StartupWait, SupervisorEvent::ControlPaired) => {
                self.phase = Phase::ControlActive;
                SupervisorAction::SpawnControlShovels { idle_ticks: self.timeouts.control_idle }
            },
            (Phase::ControlActive, SupervisorEvent::ControlShovelsSpawned) => {
                self.phase = Phase::MediaLoop;
                SupervisorAction::InstallLifetimeCap { lifetime_ticks: self.timeouts.lifetime_cap }
            },
            (_, SupervisorEvent::WatchdogFired) => {
                self.phase = Phase::Terminated;
                SupervisorAction::Terminate { success: false }
            },
            _ => SupervisorAction::Ignore,
        }
    }
}

/// The phase after the events of `events` arrive in order, starting from
/// `p`.
pub open spec fn run_phases(p: Phase, events: Seq<SupervisorEvent>) -> Phase
    decreases events.len(),
{
    if events.len() == 0 {
        p
    } else {
        run_phases(next_phase(p, events[0]), events.drop_first())
    }
}

/// If the control pair never arrives, the session never reaches the
/// relaying phases — no media pair is ever made — and the grace watchdog's
/// firing during the wait terminates the process with the failure exit
/// code.
pub proof fn lemma_startup_timeout(t: Timeouts, p: Phase, events: Seq<SupervisorEvent>)
    requires
        p is Bootstrap || p is StartupWait || p is Terminated,
        forall|i: int| 0 <= i < events.len() ==> events[i] != SupervisorEvent::ControlPaired,
    ensures
        !(run_phases(p, events) is ControlActive),
        !(run_phases(p, events) is MediaLoop),
        step_action(t, Phase::StartupWait, SupervisorEvent::WatchdogFired)
            == (SupervisorAction::Terminate { success: false }),
    decreases events.len(),
{
    if events.len() > 0 {
        assert(events[0] != SupervisorEvent::ControlPaired);
        assert(forall|i: int|
            0 <= i < events.drop_first().len() ==> events.drop_first()[i]
                != SupervisorEvent::ControlPaired);
        lemma_startup_timeout(t, next_phase(p, events[0]), events.drop_first());
    }
}

} // verus!
