//! The shield: the state machine that says whether enforcement is on, and
//! the state of the whole agent around it.
//!
//! The shield is `LOCKED` while enforcement is on, `ACTIVE` while the user
//! has unlocked it, and `THREAT_DETECTED` for a short while after a
//! protected process was terminated. The status decides whether scanning is
//! armed: every change to `LOCKED` arms it, every change to `ACTIVE` disarms
//! it, and a detected threat leaves it as it is.
//!
//! Every change of status is stamped with the clock reading at which it was
//! made, in milliseconds. A threat expires into `LOCKED` once the grace
//! period has passed since the latest change, so a timer that was set for an
//! earlier change finds nothing to do.

use crate::idle::{IdleConfig, IdleTracker};
use crate::monitor::{
    delivered_kills, failed_kills, MonitorView, ProcessInfo, ProcessMonitor, ScanOutcome,
};
use crate::records::{idle_lock_policy_id, process_names, process_names_of, stealth_policy_id, ProtectedApp};
use vstd::prelude::*;
use vstd::string::StringExecFns;

verus! {

/// How long a detected threat is shown before the shield reads `LOCKED`
/// again, in milliseconds.
pub const THREAT_GRACE_MS: u64 = 3_000;

/// The mode of enforcement.
#[allow(non_camel_case_types)]
#[derive(Debug, Clone, Copy, PartialEq, Eq, Structural)]
pub enum ShieldStatus {
    LOCKED,
    ACTIVE,
    THREAT_DETECTED,
}

/// What remains to be done outside after a policy was switched.
#[derive(Debug, Clone, Copy, PartialEq, Eq, Structural)]
pub enum PolicyEffect {
    /// Disguise this process.
    EnableStealth,
    /// Show this process under its own name again.
    DisableStealth,
    /// The idle detector was switched; nothing is left to do.
    IdleLockSwitched,
    /// The policy has no effect on the agent itself.
    Nothing,
}

/// An [`AppState`] as mathematical values.
pub struct AppStateView {
    pub status: ShieldStatus,
    pub since: nat,
    pub monitor: MonitorView,
    pub idle: IdleConfig,
}

impl AppStateView {
    /// Whether scanning is armed once the shield reads `status`: a locked
    /// shield scans, an unlocked one does not, and a detected threat leaves
    /// scanning as it is.
    pub open spec fn scanning_under(self, status: ShieldStatus) -> bool {
        match status {
            ShieldStatus::LOCKED => true,
            ShieldStatus::ACTIVE => false,
            ShieldStatus::THREAT_DETECTED => self.monitor.monitoring,
        }
    }

    /// After a change of status to `status` at the reading `now`.
    pub open spec fn with_status(self, status: ShieldStatus, now: nat) -> AppStateView {
        AppStateView {
            status,
            since: now,
            monitor: MonitorView { monitoring: self.scanning_under(status), ..self.monitor },
            ..self
        }
    }

    /// With `names` in place of the protected names.
    pub open spec fn with_protected(self, names: Seq<Seq<char>>) -> AppStateView {
        AppStateView { monitor: MonitorView { protected: names, ..self.monitor }, ..self }
    }

    /// The status and the arming of scanning agree: a locked shield scans
    /// and an unlocked one does not.
    pub open spec fn coherent(self) -> bool {
        &&& self.status == ShieldStatus::LOCKED ==> self.monitor.monitoring
        &&& self.status == ShieldStatus::ACTIVE ==> !self.monitor.monitoring
    }

    /// After the user unlocked the shield: `ACTIVE`, scanning disarmed.
    pub open spec fn after_activate(self, now: nat) -> AppStateView {
        self.with_status(ShieldStatus::ACTIVE, now)
    }

    /// After the shield was locked: `LOCKED`, scanning armed.
    pub open spec fn after_lock(self, now: nat) -> AppStateView {
        self.with_status(ShieldStatus::LOCKED, now)
    }

    /// After a protected process was terminated.
    pub open spec fn after_threat(self, now: nat) -> AppStateView {
        self.with_status(ShieldStatus::THREAT_DETECTED, now)
    }

    /// Whether a threat is shown at `now` whose grace period has passed.
    pub open spec fn threat_expired(self, now: nat) -> bool {
        self.status == ShieldStatus::THREAT_DETECTED && now >= self.since + THREAT_GRACE_MS
    }

    /// After a revert timer fired at `now`: locked where an expired threat
    /// was shown, else unchanged.
    pub open spec fn after_expiry(self, now: nat) -> AppStateView {
        if self.threat_expired(now) {
            self.after_lock(now)
        } else {
            self
        }
    }

    /// After the idle detector fired at `now`: locked, with scanning armed
    /// again; a shield that was locked already is left as it was.
    pub open spec fn after_idle_timeout(self, now: nat) -> AppStateView {
        if self.status == ShieldStatus::LOCKED {
            self
        } else {
            self.after_lock(now)
        }
    }

    /// After a scan at `now` that terminated `kills` processes.
    pub open spec fn after_kills(self, kills: nat, now: nat) -> AppStateView {
        if kills > 0 {
            self.after_threat(now)
        } else {
            self
        }
    }

    /// After one tick of the idle detector at `now`.
    pub open spec fn after_idle_tick(self, now: nat) -> AppStateView {
        let ticked = AppStateView { idle: self.idle.after_tick(now), ..self };
        if self.idle.idle_at(now) {
            ticked.after_idle_timeout(now)
        } else {
            ticked
        }
    }
}

/// What switching the policy `id` to `enabled` leaves to be done outside.
pub open spec fn policy_effect(id: Seq<char>, enabled: bool) -> PolicyEffect {
    if id == stealth_policy_id() {
        if enabled {
            PolicyEffect::EnableStealth
        } else {
            PolicyEffect::DisableStealth
        }
    } else if id == idle_lock_policy_id() {
        PolicyEffect::IdleLockSwitched
    } else {
        PolicyEffect::Nothing
    }
}

/// The state of the agent: the shield, the process monitor and the idle
/// detector.
pub struct AppState {
    pub monitor: ProcessMonitor,
    pub idle_tracker: IdleTracker,
    pub shield_status: ShieldStatus,
    /// Clock reading of the latest change of status, in milliseconds.
    pub status_since: u64,
}

impl View for AppState {
    type V = AppStateView;

    open spec fn view(&self) -> AppStateView {
        AppStateView {
            status: self.shield_status,
            since: self.status_since as nat,
            monitor: self.monitor@,
            idle: self.idle_tracker@,
        }
    }
}

impl AppState {
    /// The state at start: the shield `LOCKED` since `now_ms` and scanning
    /// armed, around the given monitor, whose protected names stay, and the
    /// given idle detector.
    pub fn new(monitor: ProcessMonitor, idle_tracker: IdleTracker, now_ms: u64) -> (r: Self)
        ensures
            r@ == (AppStateView {
                status: ShieldStatus::LOCKED,
                since: now_ms as nat,
                monitor: MonitorView { monitoring: true, ..monitor@ },
                idle: idle_tracker@,
            }),
            r@.status == ShieldStatus::LOCKED,
            r@.monitor.monitoring,
            r@.coherent(),
    {
        let mut monitor = monitor;
        monitor.set_monitoring(true);
        AppState { monitor, idle_tracker, shield_status: ShieldStatus::LOCKED, status_since: now_ms }
    }

    /// The status of the shield.
    pub fn get_shield_status(&self) -> (r: ShieldStatus)
        ensures
            r == self@.status,
    {
        self.shield_status
    }

    /// Sets the status of the shield at `now_ms`. Scanning follows the
    /// status: `LOCKED` arms it, `ACTIVE` disarms it, `THREAT_DETECTED`
    /// leaves it as it is.
    pub fn set_shield_status(&mut self, status: ShieldStatus, now_ms: u64)
        ensures
            final(self)@ == old(self)@.with_status(status, now_ms as nat),
            final(self)@.status == status,
            final(self)@.coherent(),
    {
        self.shield_status = status;
        self.status_since = now_ms;
        match status {
            ShieldStatus::LOCKED => self.monitor.set_monitoring(true),
            ShieldStatus::ACTIVE => self.monitor.set_monitoring(false),
            ShieldStatus::THREAT_DETECTED => {},
        }
    }

    /// The user unlocked the shield: it reads `ACTIVE` and scanning is
    /// disarmed.
    pub fn activate_shield(&mut self, now_ms: u64)
        ensures
            final(self)@ == old(self)@.after_activate(now_ms as nat),
            final(self)@.status == ShieldStatus::ACTIVE,
            !final(self)@.monitor.monitoring,
    {
        self.set_shield_status(ShieldStatus::ACTIVE, now_ms);
    }

    /// Locks the shield at `now_ms`: it reads `LOCKED`, scanning is armed,
    /// and the protected names are refreshed from `apps`, the outcome of
    /// reading the protected applications from the store. Where reading
    /// failed the shield is locked all the same, over the names as they
    /// were, and the error is handed on.
    pub fn lock_shield(&mut self, apps: Result<Vec<ProtectedApp>, String>, now_ms: u64) -> (r:
        Result<(), String>)
        ensures
            final(self)@.status == ShieldStatus::LOCKED,
            final(self)@.monitor.monitoring,
            match apps {
                Ok(list) => r is Ok && final(self)@ == old(self)@.after_lock(
                    now_ms as nat,
                ).with_protected(process_names_of(list@)),
                Err(e) => r == Err::<(), String>(e) && final(self)@ == old(self)@.after_lock(
                    now_ms as nat,
                ),
            },
    {
        self.set_shield_status(ShieldStatus::LOCKED, now_ms);
        self.update_protected_processes(apps)
    }

    /// A protected process was terminated at `now_ms`: the shield reads
    /// `THREAT_DETECTED`, and the grace period starts anew.
    pub fn trigger_threat_detected(&mut self, now_ms: u64)
        ensures
            final(self)@ == old(self)@.after_threat(now_ms as nat),
            final(self)@.status == ShieldStatus::THREAT_DETECTED,
    {
        self.set_shield_status(ShieldStatus::THREAT_DETECTED, now_ms);
    }

    /// A revert timer fired at `now_ms`. Where a threat is shown and the
    /// grace period has passed since the latest change of status, the shield
    /// reads `LOCKED` again, with scanning armed, and `true` is returned;
    /// else nothing changes.
    pub fn expire_threat(&mut self, now_ms: u64) -> (reverted: bool)
        ensures
            reverted == old(self)@.threat_expired(now_ms as nat),
            final(self)@ == old(self)@.after_expiry(now_ms as nat),
            reverted ==> final(self)@.status == ShieldStatus::LOCKED
                && final(self)@.monitor.monitoring,
    {
        let expired = match self.shield_status {
            ShieldStatus::THREAT_DETECTED => now_ms >= self.status_since && now_ms
                - self.status_since >= THREAT_GRACE_MS,
            _ => false,
        };
        if expired {
            self.set_shield_status(ShieldStatus::LOCKED, now_ms);
        }
        expired
    }

    /// The idle detector fired at `now_ms`: the shield reads `LOCKED`, and
    /// where it did not before, scanning is armed again. Returns whether the
    /// status changed.
    pub fn idle_timeout(&mut self, now_ms: u64) -> (changed: bool)
        ensures
            changed == (old(self)@.status != ShieldStatus::LOCKED),
            final(self)@ == old(self)@.after_idle_timeout(now_ms as nat),
            final(self)@.status == ShieldStatus::LOCKED,
            changed ==> final(self)@.monitor.monitoring,
    {
        match self.shield_status {
            ShieldStatus::LOCKED => false,
            _ => {
                self.set_shield_status(ShieldStatus::LOCKED, now_ms);
                true
            },
        }
    }

    /// One tick of the idle detector at `now_ms`. Returns whether the
    /// timeout had run out; if so the shield reads `LOCKED`, scanning is
    /// armed again where the shield was not locked, and the tick counts as
    /// activity.
    pub fn idle_tick(&mut self, now_ms: u64) -> (fired: bool)
        ensures
            fired == old(self)@.idle.idle_at(now_ms as nat),
            final(self)@ == old(self)@.after_idle_tick(now_ms as nat),
            fired ==> final(self)@.status == ShieldStatus::LOCKED,
            fired && old(self)@.status != ShieldStatus::LOCKED ==> final(self)@.monitor.monitoring,
    {
        let fired = self.idle_tracker.tick(now_ms);
        if fired {
            self.idle_timeout(now_ms);
        }
        fired
    }

    /// Takes over the outcome of reading the protected applications from the
    /// store. On success their process names replace the protected names,
    /// whole; on failure the names stay as they are and the error is handed
    /// on.
    pub fn update_protected_processes(&mut self, apps: Result<Vec<ProtectedApp>, String>) -> (r:
        Result<(), String>)
        ensures
            match apps {
                Ok(list) => r is Ok && final(self)@ == old(self)@.with_protected(
                    process_names_of(list@),
                ),
                Err(e) => r == Err::<(), String>(e) && final(self)@ == old(self)@,
            },
    {
        match apps {
            Ok(list) => {
                let names = process_names(&list);
                self.monitor.update_protected_processes(names);
                Ok(())
            },
            Err(e) => Err(e),
        }
    }

    /// Takes note of the processes that one scan terminated: if there is
    /// any, a threat was detected at `now_ms`.
    pub fn record_kills(&mut self, killed: &Vec<(i32, String)>, now_ms: u64)
        ensures
            final(self)@ == old(self)@.after_kills(killed@.len(), now_ms as nat),
    {
        if killed.len() > 0 {
            self.trigger_threat_detected(now_ms);
        }
    }

    /// One tick of enforcement at `now_ms` on a snapshot of the process
    /// table: terminates the targets, reports those that were terminated
    /// and those that could not be, and shows a threat if any was
    /// terminated.
    pub fn enforce(&mut self, processes: &Vec<ProcessInfo>, now_ms: u64) -> (outcome: ScanOutcome)
        ensures
            exists|delivered: Seq<bool>|
                delivered.len() == old(self)@.monitor.targets(processes.deep_view()).len()
                    && outcome.killed.deep_view() == #[trigger] delivered_kills(
                    old(self)@.monitor.targets(processes.deep_view()),
                    delivered,
                ) && outcome.failed.deep_view() == failed_kills(
                    old(self)@.monitor.targets(processes.deep_view()),
                    delivered,
                ),
            !old(self)@.monitor.monitoring ==> outcome.killed.deep_view() == Seq::<
                (i32, Seq<char>),
            >::empty() && outcome.failed.deep_view() == Seq::<(i32, Seq<char>)>::empty(),
            final(self)@ == old(self)@.after_kills(outcome.killed@.len(), now_ms as nat),
    {
        let outcome = self.monitor.scan(processes);
        self.record_kills(&outcome.killed, now_ms);
        outcome
    }

    /// Applies the switching of the policy `id` to `is_enabled` at `now_ms`.
    /// The idle-lock policy switches the idle detector, which counts as
    /// activity when it goes on. What is left to do outside is returned.
    pub fn toggle_security_policy(&mut self, id: &str, is_enabled: bool, now_ms: u64) -> (effect:
        PolicyEffect)
        ensures
            effect == policy_effect(id@, is_enabled),
            final(self)@ == (AppStateView {
                idle: if id@ == idle_lock_policy_id() {
                    old(self)@.idle.after_set_enabled(is_enabled, now_ms as nat)
                } else {
                    old(self)@.idle
                },
                ..old(self)@
            }),
    {
        proof {
            reveal_strlit("policy_2");
            reveal_strlit("policy_4");
            assert("policy_2"@[7] != "policy_4"@[7]);
        }
        let given = String::from_str(id);
        if given == String::from_str("policy_2") {
            if is_enabled {
                PolicyEffect::EnableStealth
            } else {
                PolicyEffect::DisableStealth
            }
        } else if given == String::from_str("policy_4") {
            self.idle_tracker.set_enabled(is_enabled, now_ms);
            PolicyEffect::IdleLockSwitched
        } else {
            PolicyEffect::Nothing
        }
    }
}

/// After locking, the shield reads `LOCKED` and scanning is armed; after
/// unlocking, it reads `ACTIVE` and scanning is disarmed; whatever the state
/// was before.
pub proof fn lemma_lock_and_activate(state: AppStateView, now: nat)
    ensures
        state.after_lock(now).status == ShieldStatus::LOCKED,
        state.after_lock(now).monitor.monitoring,
        state.after_activate(now).status == ShieldStatus::ACTIVE,
        !state.after_activate(now).monitor.monitoring,
{
}

/// A locked shield scans and an unlocked one does not: every change of
/// status brings this about, and everything else that happens keeps it.
pub proof fn lemma_status_and_scanning_agree(
    state: AppStateView,
    status: ShieldStatus,
    names: Seq<Seq<char>>,
    kills: nat,
    now: nat,
)
    ensures
        state.with_status(status, now).coherent(),
        state.after_lock(now).coherent(),
        state.after_activate(now).coherent(),
        state.after_threat(now).coherent(),
        state.coherent() ==> {
            &&& state.after_expiry(now).coherent()
            &&& state.after_idle_timeout(now).coherent()
            &&& state.after_idle_tick(now).coherent()
            &&& state.after_kills(kills, now).coherent()
            &&& state.with_protected(names).coherent()
        },
{
}

/// When the idle detector fires on a shield that is not locked, the shield
/// is as if it had been locked then: it reads `LOCKED` and scans again.
pub proof fn lemma_idle_lock_rearms(state: AppStateView, now: nat)
    requires
        state.status != ShieldStatus::LOCKED,
    ensures
        state.after_idle_timeout(now) == state.after_lock(now),
        state.after_idle_timeout(now).status == ShieldStatus::LOCKED,
        state.after_idle_timeout(now).monitor.monitoring,
{
}

/// A kill drives the shield to `THREAT_DETECTED`, whatever it read before.
/// With nothing else happening, a timer that fires before the grace period
/// has passed leaves it there, and one that fires at its end or later
/// brings it back to `LOCKED`.
pub proof fn lemma_threat_reverts_after_grace(state: AppStateView, killed_at: nat, fired_at: nat)
    ensures
        state.after_threat(killed_at).status == ShieldStatus::THREAT_DETECTED,
        fired_at < killed_at + THREAT_GRACE_MS ==> state.after_threat(killed_at).after_expiry(
            fired_at,
        ) == state.after_threat(killed_at),
        fired_at >= killed_at + THREAT_GRACE_MS ==> state.after_threat(killed_at).after_expiry(
            fired_at,
        ).status == ShieldStatus::LOCKED,
{
}

/// A second kill starts the grace period anew: the timer of the first kill
/// does not bring the shield back to `LOCKED` while the grace period of the
/// second is running, and the timer of the second does.
pub proof fn lemma_later_kill_wins(state: AppStateView, first: nat, second: nat, fired_at: nat)
    requires
        first <= second,
    ensures
        fired_at < second + THREAT_GRACE_MS ==> state.after_threat(first).after_threat(
            second,
        ).after_expiry(fired_at).status == ShieldStatus::THREAT_DETECTED,
        fired_at >= second + THREAT_GRACE_MS ==> state.after_threat(first).after_threat(
            second,
        ).after_expiry(fired_at).status == ShieldStatus::LOCKED,
{
}

/// A timer that fires after the user unlocked or locked the shield finds no
/// threat and changes nothing.
pub proof fn lemma_stale_timer_changes_nothing(
    state: AppStateView,
    killed_at: nat,
    changed_at: nat,
    fired_at: nat,
)
    ensures
        state.after_threat(killed_at).after_activate(changed_at).after_expiry(fired_at)
            == state.after_threat(killed_at).after_activate(changed_at),
        state.after_threat(killed_at).after_lock(changed_at).after_expiry(fired_at)
            == state.after_threat(killed_at).after_lock(changed_at),
{
}

} // verus!
