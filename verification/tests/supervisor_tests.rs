use rezprox::supervisor::{
    Phase, Supervisor, SupervisorAction, SupervisorEvent, Timeouts, CONTROL_IDLE_TICKS,
    LIFETIME_CAP_TICKS, MEDIA_FIRST_LEG_TICKS, MEDIA_SECOND_LEG_TICKS, STARTUP_GRACE_TICKS,
};

#[test]
fn default_timeouts() {
    let t = Timeouts::defaults();
    assert_eq!(t.startup_grace, STARTUP_GRACE_TICKS);
    assert_eq!(t.lifetime_cap, LIFETIME_CAP_TICKS);
    assert_eq!(t.control_idle, CONTROL_IDLE_TICKS);
    assert_eq!(t.media_first_leg, MEDIA_FIRST_LEG_TICKS);
    assert_eq!(t.media_second_leg, MEDIA_SECOND_LEG_TICKS);
    assert_eq!(t.startup_grace, 30);
    assert_eq!(t.lifetime_cap, 3600);
    assert_eq!(t.control_idle, 180);
    assert_eq!(t.media_first_leg, 3600);
    assert_eq!(t.media_second_leg, 10);
}

#[test]
fn happy_path_reaches_media_loop() {
    let mut s = Supervisor::new(Timeouts::defaults());
    assert_eq!(s.phase, Phase::Bootstrap);
    assert_eq!(
        s.step(SupervisorEvent::BootstrapDone),
        SupervisorAction::AwaitControl { grace_ticks: 30 }
    );
    assert_eq!(s.phase, Phase::StartupWait);
    assert_eq!(
        s.step(SupervisorEvent::ControlPaired),
        SupervisorAction::SpawnControlShovels { idle_ticks: 180 }
    );
    assert_eq!(s.phase, Phase::ControlActive);
    assert_eq!(
        s.step(SupervisorEvent::ControlShovelsSpawned),
        SupervisorAction::InstallLifetimeCap { lifetime_ticks: 3600 }
    );
    assert_eq!(s.phase, Phase::MediaLoop);
}

#[test]
fn startup_timeout_terminates_with_failure_before_any_relaying() {
    let mut s = Supervisor::new(Timeouts::defaults());
    s.step(SupervisorEvent::BootstrapDone);
    assert_eq!(s.phase, Phase::StartupWait);
    assert_eq!(
        s.step(SupervisorEvent::WatchdogFired),
        SupervisorAction::Terminate { success: false }
    );
    assert_eq!(s.phase, Phase::Terminated);
    assert_ne!(s.phase, Phase::MediaLoop);
    assert_ne!(s.phase, Phase::ControlActive);
}

#[test]
fn lifetime_cap_firing_terminates_the_media_loop() {
    let mut s = Supervisor::new(Timeouts::defaults());
    s.step(SupervisorEvent::BootstrapDone);
    s.step(SupervisorEvent::ControlPaired);
    s.step(SupervisorEvent::ControlShovelsSpawned);
    assert_eq!(s.phase, Phase::MediaLoop);
    assert_eq!(
        s.step(SupervisorEvent::WatchdogFired),
        SupervisorAction::Terminate { success: false }
    );
    assert_eq!(s.phase, Phase::Terminated);
}

#[test]
fn out_of_turn_events_are_ignored() {
    let mut s = Supervisor::new(Timeouts::defaults());
    assert_eq!(s.step(SupervisorEvent::ControlPaired), SupervisorAction::Ignore);
    assert_eq!(s.phase, Phase::Bootstrap);
    assert_eq!(s.step(SupervisorEvent::ControlShovelsSpawned), SupervisorAction::Ignore);
    assert_eq!(s.phase, Phase::Bootstrap);
    s.step(SupervisorEvent::BootstrapDone);
    assert_eq!(s.step(SupervisorEvent::BootstrapDone), SupervisorAction::Ignore);
    assert_eq!(s.phase, Phase::StartupWait);
}

#[test]
fn custom_timeouts_flow_into_actions() {
    let t = Timeouts {
        startup_grace: 5,
        lifetime_cap: 60,
        control_idle: 9,
        media_first_leg: 20,
        media_second_leg: 2,
    };
    let mut s = Supervisor::new(t);
    assert_eq!(
        s.step(SupervisorEvent::BootstrapDone),
        SupervisorAction::AwaitControl { grace_ticks: 5 }
    );
    assert_eq!(
        s.step(SupervisorEvent::ControlPaired),
        SupervisorAction::SpawnControlShovels { idle_ticks: 9 }
    );
    assert_eq!(
        s.step(SupervisorEvent::ControlShovelsSpawned),
        SupervisorAction::InstallLifetimeCap { lifetime_ticks: 60 }
    );
}
