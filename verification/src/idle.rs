//! The idle engine: derives an idle/active boolean from activity pulses.
//!
//! The engine is the decision core of the idle-detection task. The runtime
//! around it waits on whichever comes first of "an activity pulse arrived"
//! and "the current deadline passed", feeds the outcome in as a call to
//! [`IdleEngine::on_activity`] or [`IdleEngine::on_timer`], and performs the
//! returned action on the state store. A timeout of zero disables idle
//! detection entirely: the engine then never transitions to idle.

use vstd::prelude::*;

verus! {

/// What the caller must do after feeding the engine one occurrence: nothing,
/// or drive the state store's idle flag in the given direction.
#[derive(Clone, Copy, Debug, PartialEq, Eq, Structural)]
pub enum IdleAction {
    Nothing,
    /// The configured timeout elapsed with no activity: call `idle_start`.
    BecameIdle,
    /// Activity arrived while idle: call `idle_end`.
    BecameActive,
}

/// The idle state machine: `Active` until `timeout_ms` elapses with no
/// activity pulse, `Idle` until the next pulse.
#[derive(Clone, Copy, Debug, PartialEq, Eq, Structural)]
pub struct IdleEngine {
    /// The configured timeout in milliseconds; zero disables idle detection.
    pub timeout_ms: u64,
    /// Whether the engine currently considers the daemon idle.
    pub is_idle: bool,
    /// The time of the most recent activity pulse, in milliseconds.
    pub last_activity_ms: u64,
}

impl IdleEngine {
    /// Idle detection is configured at all.
    pub open spec fn enabled(self) -> bool {
        self.timeout_ms > 0
    }

    /// The earliest instant at which the idle transition may fire: the
    /// moment the timeout has elapsed since the last activity pulse.
    pub open spec fn deadline(self) -> int {
        self.last_activity_ms + self.timeout_ms
    }

    /// The engine after an activity pulse at `now_ms`: the timer restarts
    /// from `now_ms` and the engine is active.
    pub open spec fn spec_on_activity(self, now_ms: u64) -> IdleEngine {
        IdleEngine { is_idle: false, last_activity_ms: now_ms, ..self }
    }

    /// Whether a timer check at `now_ms` fires the idle transition: only
    /// when enabled, not already idle, and the deadline has passed.
    pub open spec fn fires_at(self, now_ms: u64) -> bool {
        self.enabled() && !self.is_idle && now_ms >= self.deadline()
    }

    /// A fresh engine, active, with the activity clock started at `now_ms`.
    pub fn new(timeout_ms: u64, now_ms: u64) -> (r: IdleEngine)
        ensures
            r == (IdleEngine { timeout_ms, is_idle: false, last_activity_ms: now_ms }),
    {
        IdleEngine { timeout_ms, is_idle: false, last_activity_ms: now_ms }
    }

    /// Feeds one activity pulse observed at `now_ms`. Restarts the idle
    /// timer and reports `BecameActive` exactly when the engine was idle.
    pub fn on_activity(&mut self, now_ms: u64) -> (r: IdleAction)
        ensures
            *final(self) == old(self).spec_on_activity(now_ms),
            r == (if old(self).is_idle {
                IdleAction::BecameActive
            } else {
                IdleAction::Nothing
            }),
    {
        let was_idle = self.is_idle;
        self.is_idle = false;
        self.last_activity_ms = now_ms;
        if was_idle {
            IdleAction::BecameActive
        } else {
            IdleAction::Nothing
        }
    }

    /// Feeds one timer check at `now_ms`. Reports `BecameIdle` exactly when
    /// the transition fires: idle detection is enabled, the engine was not
    /// already idle, and the timeout has elapsed since the last pulse.
    pub fn on_timer(&mut self, now_ms: u64) -> (r: IdleAction)
        ensures
            old(self).fires_at(now_ms) ==> *final(self) == (IdleEngine {
                is_idle: true,
                ..*old(self)
            }) && r == IdleAction::BecameIdle,
            !old(self).fires_at(now_ms) ==> *final(self) == *old(self) && r
                == IdleAction::Nothing,
    {
        if self.timeout_ms > 0 && !self.is_idle && now_ms >= self.last_activity_ms && now_ms
            - self.last_activity_ms >= self.timeout_ms {
            self.is_idle = true;
            IdleAction::BecameIdle
        } else {
            IdleAction::Nothing
        }
    }

    /// How long the runtime may wait before the next timer check matters:
    /// `None` when no idle transition can ever fire (detection disabled, or
    /// already idle), otherwise the deadline, saturated to `u64::MAX`.
    pub fn wait_deadline_ms(&self) -> (r: Option<u64>)
        ensures
            (self.enabled() && !self.is_idle) <==> r is Some,
            r is Some ==> r->0 == if self.deadline() <= u64::MAX {
                self.deadline()
            } else {
                u64::MAX as int
            },
    {
        if self.timeout_ms > 0 && !self.is_idle {
            if self.last_activity_ms <= u64::MAX - self.timeout_ms {
                Some(self.last_activity_ms + self.timeout_ms)
            } else {
                Some(u64::MAX)
            }
        } else {
            None
        }
    }
}

/// Law: an activity pulse at time `t` postpones the idle transition until at
/// least `t + timeout`: after the pulse, no timer check strictly earlier
/// than that fires, whatever the engine's state before the pulse.
pub proof fn lemma_activity_postpones_idle(engine: IdleEngine, t: u64, now_ms: u64)
    requires
        now_ms < t + engine.timeout_ms,
    ensures
        !engine.spec_on_activity(t).fires_at(now_ms),
{
}

} // verus!
