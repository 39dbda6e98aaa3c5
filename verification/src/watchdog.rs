//! Watchdog monitor: tracks consecutive heartbeat-send failures and the
//! device-reported watchdog state.
//!
//! Triggered is a trap: once entered, neither a clean heartbeat nor a
//! benign device report leaves it; only an explicit reset does. Reaching
//! the failure cap locally is treated like a device-reported trip, because
//! the physical effect (RF disabled) is the same.

use vstd::prelude::*;

use crate::state_machine::WatchdogState;

verus! {

/// Local watchdog bookkeeping: the derived state and the run of consecutive
/// heartbeat failures, with its configured cap.
#[derive(Clone, Copy, Debug)]
pub struct WatchdogMonitor {
    pub state: WatchdogState,
    pub consecutive_failures: u8,
    pub max_failures: u8,
}

/// The watchdog state after a device report lands: Triggered is a trap, and
/// any other state simply follows the report.
pub open spec fn spec_watchdog_after_report(w: WatchdogState, reported: Option<WatchdogState>) -> WatchdogState {
    match reported {
        None => w,
        Some(r) => if w is Triggered {
            WatchdogState::Triggered
        } else {
            r
        },
    }
}

impl WatchdogMonitor {
    /// The failure run never exceeds its cap, the cap is positive, and a
    /// full run means the watchdog has tripped.
    pub open spec fn wf(&self) -> bool {
        &&& self.max_failures >= 1
        &&& self.consecutive_failures <= self.max_failures
        &&& self.consecutive_failures == self.max_failures ==> self.state is Triggered
    }

    /// A fresh monitor: clear, with no failures on record.
    pub fn new(max_failures: u8) -> (r: WatchdogMonitor)
        requires
            max_failures >= 1,
        ensures
            r == (WatchdogMonitor {
                state: WatchdogState::Okay,
                consecutive_failures: 0u8,
                max_failures,
            }),
            r.wf(),
    {
        WatchdogMonitor { state: WatchdogState::Okay, consecutive_failures: 0, max_failures }
    }

    /// A heartbeat went out cleanly: the failure run ends. The derived
    /// state does not change; leaving Triggered takes an explicit reset.
    pub fn heartbeat_ok(&mut self)
        requires
            old(self).wf(),
        ensures
            final(self).wf(),
            final(self).state == old(self).state,
            final(self).consecutive_failures == 0,
            final(self).max_failures == old(self).max_failures,
    {
        self.consecutive_failures = 0;
    }

    /// A heartbeat send failed: the run grows (saturating at the cap), and
    /// a full run trips the watchdog. Returns whether the watchdog tripped
    /// on this very call.
    pub fn heartbeat_failed(&mut self) -> (tripped_now: bool)
        requires
            old(self).wf(),
        ensures
            final(self).wf(),
            final(self).max_failures == old(self).max_failures,
            final(self).consecutive_failures == if old(self).consecutive_failures < old(
                self,
            ).max_failures {
                old(self).consecutive_failures + 1
            } else {
                old(self).max_failures as int
            },
            final(self).state == if final(self).consecutive_failures == old(self).max_failures {
                WatchdogState::Triggered
            } else {
                old(self).state
            },
            tripped_now == (final(self).state is Triggered && !(old(self).state is Triggered)),
    {
        if self.consecutive_failures < self.max_failures {
            self.consecutive_failures = self.consecutive_failures + 1;
        }
        if self.consecutive_failures == self.max_failures {
            let was = matches!(self.state, WatchdogState::Triggered);
            self.state = WatchdogState::Triggered;
            !was
        } else {
            false
        }
    }

    /// Take in the device's self-reported watchdog state from a status
    /// poll. Triggered is a trap; otherwise the report wins.
    pub fn observe_report(&mut self, reported: Option<WatchdogState>)
        requires
            old(self).wf(),
        ensures
            final(self).wf(),
            final(self).state == spec_watchdog_after_report(old(self).state, reported),
            final(self).consecutive_failures == old(self).consecutive_failures,
            final(self).max_failures == old(self).max_failures,
    {
        match reported {
            None => {},
            Some(r) => {
                if !matches!(self.state, WatchdogState::Triggered) {
                    self.state = r;
                }
            },
        }
    }

    /// Explicit watchdog reset: clears the derived state and the failure
    /// run. This is the only way out of Triggered.
    pub fn reset(&mut self)
        requires
            old(self).wf(),
        ensures
            final(self).wf(),
            *final(self) == (WatchdogMonitor {
                state: WatchdogState::Okay,
                consecutive_failures: 0u8,
                max_failures: old(self).max_failures,
            }),
    {
        self.state = WatchdogState::Okay;
        self.consecutive_failures = 0;
    }
}

} // verus!
