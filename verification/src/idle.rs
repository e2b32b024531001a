//! The idle detector: it remembers when the user was last active and says
//! when the configured time without activity has run out.
//!
//! Time is a reading of a monotonic clock in milliseconds, handed in by the
//! caller. A reading that lies before the recorded activity counts as no
//! time elapsed.

use vstd::prelude::*;

verus! {

/// Shortest idle timeout that can be configured, in minutes.
pub const MIN_TIMEOUT_MINUTES: i64 = 1;

/// Longest idle timeout that can be configured, in minutes, and the default.
pub const MAX_TIMEOUT_MINUTES: i64 = 10;

/// Milliseconds between two ticks of the detector, unless the caller
/// chooses otherwise.
pub const TICK_INTERVAL_MS: u64 = 5_000;

/// Milliseconds in a minute.
pub const MILLIS_PER_MINUTE: u64 = 60_000;

/// Milliseconds in a second.
pub const MILLIS_PER_SECOND: u64 = 1_000;

/// What an [`IdleTracker`] holds, as mathematical values.
pub struct IdleConfig {
    pub timeout_minutes: int,
    pub enabled: bool,
    pub last_activity: nat,
}

/// The timeout that a request for `minutes` results in: the nearest value
/// within the configurable range.
pub open spec fn clamp_timeout(minutes: int) -> int {
    if minutes < MIN_TIMEOUT_MINUTES {
        MIN_TIMEOUT_MINUTES as int
    } else if minutes > MAX_TIMEOUT_MINUTES {
        MAX_TIMEOUT_MINUTES as int
    } else {
        minutes
    }
}

impl IdleConfig {
    /// The timeout lies within the configurable range.
    pub open spec fn wf(self) -> bool {
        MIN_TIMEOUT_MINUTES <= self.timeout_minutes <= MAX_TIMEOUT_MINUTES
    }

    /// Milliseconds without activity at the reading `now`.
    pub open spec fn elapsed_ms(self, now: nat) -> nat {
        if now >= self.last_activity {
            (now - self.last_activity) as nat
        } else {
            0
        }
    }

    /// Whether the timeout has run out at the reading `now`: tracking is on
    /// and at least the configured minutes have passed without activity.
    pub open spec fn idle_at(self, now: nat) -> bool {
        self.enabled && self.elapsed_ms(now) >= self.timeout_minutes * MILLIS_PER_MINUTE
    }

    /// The configuration after activity was recorded at `now`.
    pub open spec fn after_reset(self, now: nat) -> IdleConfig {
        IdleConfig { last_activity: now, ..self }
    }

    /// The configuration after a timeout of `minutes` was requested.
    pub open spec fn after_set_timeout(self, minutes: int) -> IdleConfig {
        IdleConfig { timeout_minutes: clamp_timeout(minutes), ..self }
    }

    /// The configuration after tracking was switched on or off at `now`.
    /// Switching it on counts as activity.
    pub open spec fn after_set_enabled(self, enabled: bool, now: nat) -> IdleConfig {
        IdleConfig {
            enabled,
            last_activity: if enabled {
                now
            } else {
                self.last_activity
            },
            ..self
        }
    }

    /// The configuration after one tick of the detector at `now`: where the
    /// timeout had run out, the tick counts as activity.
    pub open spec fn after_tick(self, now: nat) -> IdleConfig {
        if self.idle_at(now) {
            self.after_reset(now)
        } else {
            self
        }
    }
}

/// Tracks user activity against a timeout of 1 to 10 minutes.
pub struct IdleTracker {
    last_activity: u64,
    timeout_minutes: i64,
    is_enabled: bool,
}

impl View for IdleTracker {
    type V = IdleConfig;

    closed spec fn view(&self) -> IdleConfig {
        IdleConfig {
            timeout_minutes: self.timeout_minutes as int,
            enabled: self.is_enabled,
            last_activity: self.last_activity as nat,
        }
    }
}

impl IdleTracker {
    #[verifier::type_invariant]
    spec fn timeout_in_range(self) -> bool {
        MIN_TIMEOUT_MINUTES <= self.timeout_minutes <= MAX_TIMEOUT_MINUTES
    }

    /// A tracker that is switched off, with the longest timeout and the
    /// last activity at `now_ms`.
    pub fn new(now_ms: u64) -> (r: Self)
        ensures
            r@ == (IdleConfig {
                timeout_minutes: MAX_TIMEOUT_MINUTES as int,
                enabled: false,
                last_activity: now_ms as nat,
            }),
            r@.wf(),
    {
        IdleTracker { last_activity: now_ms, timeout_minutes: MAX_TIMEOUT_MINUTES, is_enabled: false }
    }

    /// Records user activity at `now_ms`.
    pub fn reset(&mut self, now_ms: u64)
        ensures
            final(self)@ == old(self)@.after_reset(now_ms as nat),
            final(self)@.wf(),
    {
        proof {
            use_type_invariant(&*self);
        }
        self.last_activity = now_ms;
    }

    /// Whether the timeout has run out at `now_ms`.
    pub fn is_idle(&self, now_ms: u64) -> (r: bool)
        ensures
            r == self@.idle_at(now_ms as nat),
    {
        proof {
            use_type_invariant(self);
        }
        if !self.is_enabled {
            return false;
        }
        let elapsed: u64 = if now_ms >= self.last_activity {
            now_ms - self.last_activity
        } else {
            0
        };
        let limit: u64 = (self.timeout_minutes as u64) * MILLIS_PER_MINUTE;
        elapsed >= limit
    }

    /// Whole seconds without activity at `now_ms`.
    pub fn get_idle_seconds(&self, now_ms: u64) -> (r: u64)
        ensures
            r == self@.elapsed_ms(now_ms as nat) / (MILLIS_PER_SECOND as nat),
    {
        if now_ms >= self.last_activity {
            (now_ms - self.last_activity) / MILLIS_PER_SECOND
        } else {
            0
        }
    }

    /// Sets the timeout to `minutes`, brought into the range of 1 to 10.
    pub fn set_timeout(&mut self, minutes: i64)
        ensures
            final(self)@ == old(self)@.after_set_timeout(minutes as int),
            MIN_TIMEOUT_MINUTES <= final(self)@.timeout_minutes <= MAX_TIMEOUT_MINUTES,
    {
        self.timeout_minutes = if minutes < MIN_TIMEOUT_MINUTES {
            MIN_TIMEOUT_MINUTES
        } else if minutes > MAX_TIMEOUT_MINUTES {
            MAX_TIMEOUT_MINUTES
        } else {
            minutes
        };
    }

    /// The timeout in minutes.
    pub fn get_timeout(&self) -> (r: i64)
        ensures
            r == self@.timeout_minutes,
            MIN_TIMEOUT_MINUTES <= r <= MAX_TIMEOUT_MINUTES,
    {
        proof {
            use_type_invariant(self);
        }
        self.timeout_minutes
    }

    /// Switches tracking on or off. Switching it on records activity at
    /// `now_ms`, so that the timeout starts anew.
    pub fn set_enabled(&mut self, enabled: bool, now_ms: u64)
        ensures
            final(self)@ == old(self)@.after_set_enabled(enabled, now_ms as nat),
            final(self)@.wf(),
            !final(self)@.idle_at(now_ms as nat),
    {
        proof {
            use_type_invariant(&*self);
        }
        self.is_enabled = enabled;
        if enabled {
            self.last_activity = now_ms;
        }
    }

    /// Whether tracking is switched on.
    pub fn is_enabled(&self) -> (r: bool)
        ensures
            r == self@.enabled,
    {
        self.is_enabled
    }

    /// One tick of the detector at `now_ms`. Returns whether the timeout had
    /// run out; if so the caller is to act on it once, and the tick is
    /// recorded as activity so that the next tick does not fire again.
    pub fn tick(&mut self, now_ms: u64) -> (fired: bool)
        ensures
            fired == old(self)@.idle_at(now_ms as nat),
            final(self)@ == old(self)@.after_tick(now_ms as nat),
            final(self)@.wf(),
            !final(self)@.idle_at(now_ms as nat),
    {
        proof {
            use_type_invariant(&*self);
        }
        let fired = self.is_idle(now_ms);
        if fired {
            self.reset(now_ms);
        }
        fired
    }
}

/// Whatever timeout is requested, the one that results lies between 1 and 10
/// minutes.
pub proof fn lemma_timeout_always_in_range(config: IdleConfig, minutes: int)
    ensures
        MIN_TIMEOUT_MINUTES <= config.after_set_timeout(minutes).timeout_minutes
            <= MAX_TIMEOUT_MINUTES,
        config.after_set_timeout(minutes).wf(),
{
}

/// Right after tracking was switched on, the timeout has not run out.
pub proof fn lemma_not_idle_after_enabling(config: IdleConfig, now: nat)
    requires
        config.wf(),
    ensures
        !config.after_set_enabled(true, now).idle_at(now),
{
}

/// A tick that fires leaves nothing for the next tick at the same reading,
/// and a tick that does not fire changes nothing.
pub proof fn lemma_tick_fires_once(config: IdleConfig, now: nat)
    requires
        config.wf(),
    ensures
        !config.after_tick(now).idle_at(now),
        !config.idle_at(now) ==> config.after_tick(now) == config,
{
}

} // verus!
