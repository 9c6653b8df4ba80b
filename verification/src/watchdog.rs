//! The watchdog countdown.
//!
//! A watchdog guards one liveness domain: it counts down one tick per silent
//! second and, on reaching zero, demands unconditional process termination
//! with the failure exit code.  Any positive command installs a fresh
//! countdown immediately; a negative command ends the watchdog without side
//! effect; the command value zero stands for "no command arrived this tick"
//! and is never sent by a client.
//!
//! The runner that owns a watchdog loops once per tick: it asks whether the
//! countdown is already spent, obtains the command that arrived during the
//! tick (or zero), and applies [`Watchdog::step`], acting on the returned
//! [`WatchdogAction`].

use vstd::prelude::*;

verus! {

/// What the watchdog runner must do after one tick.
#[derive(Clone, Copy, Debug, PartialEq, Eq, Structural)]
pub enum WatchdogAction {
    /// The countdown is spent: terminate the whole process with the failure
    /// exit code.
    Fire,
    /// A client asked the watchdog to end quietly: leave the loop, nothing
    /// else.
    Stop,
    /// Keep ticking.
    Continue,
}

/// The countdown that remains after one tick with command `cmd` arrives in
/// state `t`.
pub open spec fn wd_next_ticks(t: int, cmd: int) -> int {
    if t == 0 {
        t
    } else if cmd == 0 {
        t - 1
    } else if cmd < 0 {
        t
    } else {
        cmd
    }
}

/// The action a tick with command `cmd` demands in state `t`.
pub open spec fn wd_action(t: int, cmd: int) -> WatchdogAction {
    if t == 0 {
        WatchdogAction::Fire
    } else if cmd == 0 {
        WatchdogAction::Continue
    } else if cmd < 0 {
        WatchdogAction::Stop
    } else {
        WatchdogAction::Continue
    }
}

/// One resettable countdown.  Many independent instances coexist; they share
/// nothing.
pub struct Watchdog {
    /// Ticks left before the watchdog fires.
    pub ticks_left: i32,
}

impl Watchdog {
    /// The countdown never goes below zero.
    pub open spec fn wf(self) -> bool {
        self.ticks_left >= 0
    }

    /// A new watchdog with `initial_ticks` seconds on the clock.
    pub fn create(initial_ticks: i32) -> (w: Watchdog)
        requires
            initial_ticks >= 0,
        ensures
            w.ticks_left == initial_ticks,
            w.wf(),
    {
        Watchdog { ticks_left: initial_ticks }
    }

    /// Whether the countdown is already spent, so the next step fires.
    pub fn expired(&self) -> (b: bool)
        ensures
            b == (self.ticks_left == 0),
    {
        self.ticks_left == 0
    }

    /// One tick: `cmd` is the command that arrived during the tick, or zero
    /// if the second passed silently.  A spent countdown fires whatever the
    /// command; a silent tick counts down by one; a positive command installs
    /// a new countdown immediately; a negative command stops the watchdog.
    pub fn step(&mut self, cmd: i32) -> (a: WatchdogAction)
        requires
            old(self).wf(),
        ensures
            final(self).wf(),
            final(self).ticks_left == wd_next_ticks(old(self).ticks_left as int, cmd as int),
            a == wd_action(old(self).ticks_left as int, cmd as int),
    {
        if self.ticks_left == 0 {
            WatchdogAction::Fire
        } else if cmd == 0 {
            self.ticks_left = self.ticks_left - 1;
            WatchdogAction::Continue
        } else if cmd < 0 {
            WatchdogAction::Stop
        } else {
            self.ticks_left = cmd;
            WatchdogAction::Continue
        }
    }
}

/// A run of `k` silent ticks.
pub open spec fn silent_ticks(k: nat) -> Seq<int> {
    Seq::new(k, |i: int| 0)
}

/// The countdown left after the ticks of `cmds` arrive in order, starting
/// from `t`.
pub open spec fn wd_run(t: int, cmds: Seq<int>) -> int
    decreases cmds.len(),
{
    if cmds.len() == 0 {
        t
    } else {
        wd_run(wd_next_ticks(t, cmds[0]), cmds.drop_first())
    }
}

/// A watchdog created with `n` ticks and never reset counts down one per
/// silent tick: after `k` of them it holds `n - k`; every step strictly
/// before the `n`-th continues, and the step after `n` silent ticks fires.
pub proof fn lemma_watchdog_countdown(n: int, k: int)
    requires
        0 <= k <= n,
    ensures
        wd_run(n, silent_ticks(k as nat)) == n - k,
        k < n ==> wd_action(wd_run(n, silent_ticks(k as nat)), 0) == WatchdogAction::Continue,
        k == n ==> wd_action(wd_run(n, silent_ticks(k as nat)), 0) == WatchdogAction::Fire,
    decreases k,
{
    if k == 0 {
    } else {
        assert(silent_ticks(k as nat).drop_first() =~= silent_ticks((k - 1) as nat));
        lemma_watchdog_countdown(n - 1, k - 1);
    }
}

/// Resetting a live watchdog to `m` installs `m` immediately, and the
/// countdown then restarts from `m` exactly as a fresh watchdog would.
pub proof fn lemma_watchdog_reset(t: int, m: int, k: int)
    requires
        t > 0,
        0 < m,
        0 <= k <= m,
    ensures
        wd_next_ticks(t, m) == m,
        wd_run(wd_next_ticks(t, m), silent_ticks(k as nat)) == m - k,
        k == m ==> wd_action(wd_run(wd_next_ticks(t, m), silent_ticks(k as nat)), 0)
            == WatchdogAction::Fire,
{
    lemma_watchdog_countdown(m, k);
}

} // verus!
