//! The timeout supervisor: units of work register with a deadline and are
//! killed when it passes, unless they unregister or are pinged first.
//!
//! The supervisor decides; its host runs the timers. Every armed timer
//! carries an identifier, and a timer that fires is honoured only while it
//! is still the unit's current one, so a cancelled or replaced timer can
//! never kill its unit.

use std::collections::HashMap;
use vstd::prelude::*;

verus! {

broadcast use vstd::std_specs::hash::group_hash_axioms;

/// How many units the supervisor has killed.
#[derive(Clone, Copy, Debug, PartialEq, Eq, Structural)]
pub struct WatchdogStats {
    pub kills: usize,
}

/// An event handed to the supervisor.
#[derive(Clone, Copy, Debug, PartialEq, Eq, Structural)]
pub enum WatchdogMsg {
    /// Supervise `unit`, with a deadline `after_ms` milliseconds away.
    Register(u64, u64),
    /// Stop supervising `unit` (it finished, stopped or failed).
    Unregister(u64),
    /// Replace the deadline of a supervised `unit` by one `after_ms` away.
    Ping(u64, u64),
    /// The timer with the given identifier, armed for `unit`, has fired.
    Timeout(u64, u64),
    /// Report the statistics.
    Stats,
}

/// What the host must do.
#[derive(Clone, Copy, Debug, PartialEq, Eq, Structural)]
pub enum WatchdogAction {
    /// Start a one-shot timer that reports `Timeout(unit, timer)` after `after_ms`.
    Arm { unit: u64, after_ms: u64, timer: u64 },
    /// Cancel the timer with this identifier, if it has not fired yet.
    Disarm { timer: u64 },
    /// Forcibly terminate the unit.
    Kill { unit: u64 },
    /// Hand these statistics to whoever asked.
    Report(WatchdogStats),
}

/// A supervised unit: its deadline's length and its current timer.
#[derive(Clone, Copy, Debug, PartialEq, Eq, Structural)]
pub struct Registration {
    pub after_ms: u64,
    pub timer: u64,
}

/// The abstract state of the supervisor.
pub struct WatchdogModel {
    pub subjects: Map<u64, Registration>,
    pub kills: usize,
    pub next_timer: u64,
}

/// Every current timer was issued before `next_timer`.
pub open spec fn watchdog_wf(m: WatchdogModel) -> bool {
    forall|u: u64| #[trigger]
        m.subjects.contains_key(u) ==> m.subjects[u].timer < m.next_timer
}

/// Arms a fresh timer for `unit`, replacing (and disarming) its current one.
pub open spec fn arm(m: WatchdogModel, unit: u64, after_ms: u64) -> (WatchdogModel, Seq<
    WatchdogAction,
>) {
    if m.next_timer == u64::MAX {
        (m, Seq::empty())
    } else {
        let t = m.next_timer;
        let armed = WatchdogAction::Arm { unit, after_ms, timer: t };
        let m2 = WatchdogModel {
            subjects: m.subjects.insert(unit, Registration { after_ms, timer: t }),
            kills: m.kills,
            next_timer: (t + 1) as u64,
        };
        if m.subjects.contains_key(unit) {
            (m2, seq![WatchdogAction::Disarm { timer: m.subjects[unit].timer }, armed])
        } else {
            (m2, seq![armed])
        }
    }
}

/// The supervisor's response to one event: its next state and what the
/// host must do.
pub open spec fn watchdog_step(m: WatchdogModel, msg: WatchdogMsg) -> (WatchdogModel, Seq<
    WatchdogAction,
>) {
    match msg {
        WatchdogMsg::Register(unit, after_ms) => arm(m, unit, after_ms),
        WatchdogMsg::Ping(unit, after_ms) => if m.subjects.contains_key(unit) {
            arm(m, unit, after_ms)
        } else {
            (m, Seq::empty())
        },
        WatchdogMsg::Unregister(unit) => if m.subjects.contains_key(unit) {
            (
                WatchdogModel {
                    subjects: m.subjects.remove(unit),
                    kills: m.kills,
                    next_timer: m.next_timer,
                },
                seq![WatchdogAction::Disarm { timer: m.subjects[unit].timer }],
            )
        } else {
            (m, Seq::empty())
        },
        WatchdogMsg::Timeout(unit, timer) => if m.subjects.contains_key(unit)
            && m.subjects[unit].timer == timer {
            (
                WatchdogModel {
                    subjects: m.subjects.remove(unit),
                    kills: if m.kills == usize::MAX {
                        m.kills
                    } else {
                        (m.kills + 1) as usize
                    },
                    next_timer: m.next_timer,
                },
                seq![WatchdogAction::Kill { unit }],
            )
        } else {
            (m, Seq::empty())
        },
        WatchdogMsg::Stats => (m, seq![WatchdogAction::Report(WatchdogStats { kills: m.kills })]),
    }
}

/// Whether `actions` kill `unit`.
pub open spec fn kills_unit(actions: Seq<WatchdogAction>, unit: u64) -> bool {
    exists|i: int| 0 <= i < actions.len() && #[trigger] actions[i] == WatchdogAction::Kill { unit }
}

/// The supervisor.
pub struct Watchdog {
    subjects: HashMap<u64, Registration>,
    kills: usize,
    next_timer: u64,
}

impl View for Watchdog {
    type V = WatchdogModel;

    closed spec fn view(&self) -> WatchdogModel {
        WatchdogModel { subjects: self.subjects@, kills: self.kills, next_timer: self.next_timer }
    }
}

impl Watchdog {
    pub open spec fn wf(&self) -> bool {
        watchdog_wf(self@)
    }

    /// A supervisor with nothing registered and no kills.
    pub fn new() -> (r: Watchdog)
        ensures
            r.wf(),
            r@.subjects == Map::<u64, Registration>::empty(),
            r@.kills == 0,
            r@.next_timer == 0,
    {
        Watchdog { subjects: HashMap::new(), kills: 0, next_timer: 0 }
    }

    /// The statistics so far.
    pub fn stats(&self) -> (r: WatchdogStats)
        ensures
            r.kills == self@.kills,
    {
        WatchdogStats { kills: self.kills }
    }

    /// Whether `unit` is supervised.
    pub fn is_registered(&self, unit: u64) -> (r: bool)
        ensures
            r == self@.subjects.contains_key(unit),
    {
        self.subjects.contains_key(&unit)
    }

    fn arm(&mut self, unit: u64, after_ms: u64) -> (r: Vec<WatchdogAction>)
        requires
            old(self).wf(),
        ensures
            final(self).wf(),
            (final(self)@, r@) == arm(old(self)@, unit, after_ms),
    {
        if self.next_timer == u64::MAX {
            return Vec::new();
        }
        let t = self.next_timer;
        let armed = WatchdogAction::Arm { unit, after_ms, timer: t };
        let mut out: Vec<WatchdogAction> = Vec::new();
        match self.subjects.get(&unit) {
            Some(reg) => {
                out.push(WatchdogAction::Disarm { timer: reg.timer });
            },
            None => {},
        }
        out.push(armed);
        self.subjects.insert(unit, Registration { after_ms, timer: t });
        self.next_timer = t + 1;
        proof {
            let s = arm(old(self)@, unit, after_ms);
            assert(self@.subjects == s.0.subjects);
            if old(self)@.subjects.contains_key(unit) {
                assert(out@ =~= s.1);
            } else {
                assert(out@ =~= s.1);
            }
        }
        out
    }

    /// Handles one event: updates the supervisor and returns what the host
    /// must do, in order.
    pub fn handle(&mut self, msg: WatchdogMsg) -> (r: Vec<WatchdogAction>)
        requires
            old(self).wf(),
        ensures
            final(self).wf(),
            (final(self)@, r@) == watchdog_step(old(self)@, msg),
    {
        match msg {
            WatchdogMsg::Register(unit, after_ms) => self.arm(unit, after_ms),
            WatchdogMsg::Ping(unit, after_ms) => {
                if self.subjects.contains_key(&unit) {
                    self.arm(unit, after_ms)
                } else {
                    Vec::new()
                }
            },
            WatchdogMsg::Unregister(unit) => match self.subjects.remove(&unit) {
                Some(reg) => {
                    let mut out: Vec<WatchdogAction> = Vec::new();
                    out.push(WatchdogAction::Disarm { timer: reg.timer });
                    proof {
                        assert(out@ =~= watchdog_step(old(self)@, msg).1);
                    }
                    out
                },
                None => {
                    assert(old(self)@.subjects.remove(unit) =~= old(self)@.subjects);
                    Vec::new()
                },
            },
            WatchdogMsg::Timeout(unit, timer) => {
                let current = match self.subjects.get(&unit) {
                    Some(reg) => reg.timer == timer,
                    None => false,
                };
                if current {
                    self.subjects.remove(&unit);
                    self.kills = self.kills.saturating_add(1);
                    let mut out: Vec<WatchdogAction> = Vec::new();
                    out.push(WatchdogAction::Kill { unit });
                    proof {
                        assert(out@ =~= watchdog_step(old(self)@, msg).1);
                    }
                    out
                } else {
                    Vec::new()
                }
            },
            WatchdogMsg::Stats => {
                let mut out: Vec<WatchdogAction> = Vec::new();
                out.push(WatchdogAction::Report(WatchdogStats { kills: self.kills }));
                proof {
                    assert(out@ =~= watchdog_step(old(self)@, msg).1);
                }
                out
            },
        }
    }
}

/// Cancellation wins: a unit registered and then unregistered is no
/// longer supervised, and no timer that fires afterwards, whichever it is,
/// kills it or changes the supervisor.
pub proof fn lemma_unregister_cancels(m: WatchdogModel, unit: u64, after_ms: u64, timer: u64)
    requires
        watchdog_wf(m),
    ensures
        ({
            let registered = watchdog_step(m, WatchdogMsg::Register(unit, after_ms)).0;
            let cancelled = watchdog_step(registered, WatchdogMsg::Unregister(unit)).0;
            let fired = watchdog_step(cancelled, WatchdogMsg::Timeout(unit, timer));
            &&& !cancelled.subjects.contains_key(unit)
            &&& !kills_unit(fired.1, unit)
            &&& fired.0 == cancelled
        }),
{
}

/// A replaced timer is dead: after a unit is pinged, the timer it had
/// before can no longer kill it (while timer identifiers remain).
pub proof fn lemma_ping_disarms_old_timer(m: WatchdogModel, unit: u64, after_ms: u64)
    requires
        watchdog_wf(m),
        m.subjects.contains_key(unit),
        m.next_timer < u64::MAX,
    ensures
        ({
            let old_timer = m.subjects[unit].timer;
            let pinged = watchdog_step(m, WatchdogMsg::Ping(unit, after_ms)).0;
            let fired = watchdog_step(pinged, WatchdogMsg::Timeout(unit, old_timer));
            &&& !kills_unit(fired.1, unit)
            &&& fired.0 == pinged
        }),
{
}

} // verus!
