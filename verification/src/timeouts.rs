//! Deadlines of admitted operations.
//!
//! An outbound search and an active share each capture their timeout from the
//! settings when they begin, so a settings change never shortens or extends an
//! operation that is already under way. The owner reports what the endpoint
//! is doing and the current boot-clock instant; these functions say when a
//! search or a transfer has run out of time.

use vstd::prelude::*;
use crate::clock::{NANOS_PER_SEC, secs};
use crate::observations::Phase;

verus! {

/// The abstract state of [`OperationTimeouts`], in nanoseconds.
pub ghost struct TimeoutsModel {
    /// When the current outbound search was first seen running.
    pub discovery_started_at: Option<u128>,
    /// The search window captured when the search began.
    pub discovery: u128,
    /// When the active share entered the transferring phase.
    pub transfer_started_at: Option<u128>,
    /// The transfer window captured when the share became active.
    pub transfer: u128,
    /// The share the transfer window was captured for.
    pub transfer_share_id: Option<u64>,
}

/// Whether a share in `phase` is still under way.
pub open spec fn is_under_way(phase: Phase) -> bool {
    phase == Phase::WaitingForPeer || phase == Phase::AwaitingLocalConsent
        || phase == Phase::AwaitingPeerConsent || phase == Phase::Transferring
}

/// Time passed from `start` to `now`, zero when `now` is earlier.
pub open spec fn elapsed(start: u128, now: u128) -> int {
    if now >= start { now - start } else { 0 }
}

impl TimeoutsModel {
    /// Captures settings for operations that just began, given whether a
    /// search is running, the active share, and the configured timeouts.
    pub open spec fn capture(
        self,
        searching: bool,
        active: Option<(u64, Phase)>,
        discovery_timeout_secs: u64,
        transfer_timeout_secs: u64,
        now: u128,
    ) -> TimeoutsModel {
        let d = if searching {
            if self.discovery_started_at is None {
                TimeoutsModel {
                    discovery_started_at: Some(now),
                    discovery: (discovery_timeout_secs * NANOS_PER_SEC) as u128,
                    ..self
                }
            } else {
                self
            }
        } else {
            TimeoutsModel { discovery_started_at: None, ..self }
        };
        match active {
            Some((id, phase)) => if is_under_way(phase) {
                let fresh = if d.transfer_share_id != Some(id) {
                    TimeoutsModel {
                        transfer_started_at: None,
                        transfer: (transfer_timeout_secs * NANOS_PER_SEC) as u128,
                        transfer_share_id: Some(id),
                        ..d
                    }
                } else {
                    d
                };
                if phase == Phase::Transferring {
                    if fresh.transfer_started_at is None {
                        TimeoutsModel { transfer_started_at: Some(now), ..fresh }
                    } else {
                        fresh
                    }
                } else {
                    TimeoutsModel { transfer_started_at: None, ..fresh }
                }
            } else {
                TimeoutsModel { transfer_started_at: None, transfer_share_id: None, ..d }
            },
            None => TimeoutsModel { transfer_started_at: None, transfer_share_id: None, ..d },
        }
    }

    /// The search state after a deadline check, and whether the search ran
    /// out of time.
    pub open spec fn check_discovery(self, searching: bool, now: u128) -> (TimeoutsModel, bool) {
        if !searching {
            (TimeoutsModel { discovery_started_at: None, ..self }, false)
        } else {
            let started = match self.discovery_started_at {
                Some(s) => s,
                None => now,
            };
            if elapsed(started, now) >= self.discovery {
                (TimeoutsModel { discovery_started_at: None, ..self }, true)
            } else {
                (TimeoutsModel { discovery_started_at: Some(started), ..self }, false)
            }
        }
    }

    /// The transfer state after a deadline check, and the share whose
    /// transfer ran out of time.
    pub open spec fn check_transfer(self, active: Option<(u64, Phase)>, now: u128) -> (TimeoutsModel, Option<u64>) {
        match active {
            Some((id, phase)) => if phase == Phase::Transferring {
                let started = match self.transfer_started_at {
                    Some(s) => s,
                    None => now,
                };
                if elapsed(started, now) < self.transfer {
                    (TimeoutsModel { transfer_started_at: Some(started), ..self }, None)
                } else {
                    (TimeoutsModel { transfer_started_at: None, ..self }, Some(id))
                }
            } else {
                (TimeoutsModel { transfer_started_at: None, ..self }, None)
            },
            None => (TimeoutsModel { transfer_started_at: None, ..self }, None),
        }
    }
}

/// Settings and start instants retained for operations already admitted.
#[derive(Debug)]
pub struct OperationTimeouts {
    discovery_started_at: Option<u128>,
    discovery: u128,
    transfer_started_at: Option<u128>,
    transfer: u128,
    transfer_share_id: Option<u64>,
}

impl View for OperationTimeouts {
    type V = TimeoutsModel;

    closed spec fn view(&self) -> TimeoutsModel {
        TimeoutsModel {
            discovery_started_at: self.discovery_started_at,
            discovery: self.discovery,
            transfer_started_at: self.transfer_started_at,
            transfer: self.transfer,
            transfer_share_id: self.transfer_share_id,
        }
    }
}

impl OperationTimeouts {
    /// Nothing under way and no window captured.
    pub fn new() -> (r: OperationTimeouts)
        ensures
            r@ == (TimeoutsModel {
                discovery_started_at: None,
                discovery: 0,
                transfer_started_at: None,
                transfer: 0,
                transfer_share_id: None,
            }),
    {
        OperationTimeouts {
            discovery_started_at: None,
            discovery: 0,
            transfer_started_at: None,
            transfer: 0,
            transfer_share_id: None,
        }
    }

    /// Captures the configured timeouts for a search or share that just
    /// began; operations already under way keep what they captured.
    pub fn capture(
        &mut self,
        searching: bool,
        active: Option<(u64, Phase)>,
        discovery_timeout_secs: u64,
        transfer_timeout_secs: u64,
        now: u128,
    )
        ensures
            final(self)@ == old(self)@.capture(searching, active, discovery_timeout_secs, transfer_timeout_secs, now),
    {
        if searching {
            if self.discovery_started_at.is_none() {
                self.discovery_started_at = Some(now);
                self.discovery = secs(discovery_timeout_secs);
            }
        } else {
            self.discovery_started_at = None;
        }
        match active {
            Some((id, phase)) => {
                let under_way = matches!(phase, Phase::WaitingForPeer) || matches!(phase, Phase::AwaitingLocalConsent)
                    || matches!(phase, Phase::AwaitingPeerConsent) || matches!(phase, Phase::Transferring);
                if under_way {
                    let same = match self.transfer_share_id {
                        Some(current) => current == id,
                        None => false,
                    };
                    if !same {
                        self.transfer_started_at = None;
                        self.transfer = secs(transfer_timeout_secs);
                        self.transfer_share_id = Some(id);
                    }
                    if matches!(phase, Phase::Transferring) {
                        if self.transfer_started_at.is_none() {
                            self.transfer_started_at = Some(now);
                        }
                    } else {
                        self.transfer_started_at = None;
                    }
                } else {
                    self.transfer_started_at = None;
                    self.transfer_share_id = None;
                }
            },
            None => {
                self.transfer_started_at = None;
                self.transfer_share_id = None;
            },
        }
    }

    /// Marks the active share as transferring from `now`, as a local accept
    /// does.
    pub fn start_transfer(&mut self, now: u128)
        ensures
            final(self)@ == (TimeoutsModel { transfer_started_at: Some(now), ..old(self)@ }),
    {
        self.transfer_started_at = Some(now);
    }

    /// Checks the search deadline; `true` when the search ran out of time and
    /// must stop.
    pub fn check_discovery(&mut self, searching: bool, now: u128) -> (r: bool)
        ensures
            (final(self)@, r) == old(self)@.check_discovery(searching, now),
    {
        if !searching {
            self.discovery_started_at = None;
            return false;
        }
        let started = match self.discovery_started_at {
            Some(s) => s,
            None => now,
        };
        let passed: u128 = if now >= started { now - started } else { 0 };
        if passed >= self.discovery {
            self.discovery_started_at = None;
            true
        } else {
            self.discovery_started_at = Some(started);
            false
        }
    }

    /// Checks the transfer deadline; the share whose transfer ran out of
    /// time and must fail.
    pub fn check_transfer(&mut self, active: Option<(u64, Phase)>, now: u128) -> (r: Option<u64>)
        ensures
            (final(self)@, r) == old(self)@.check_transfer(active, now),
    {
        match active {
            Some((id, phase)) => {
                if !matches!(phase, Phase::Transferring) {
                    self.transfer_started_at = None;
                    return None;
                }
                let started = match self.transfer_started_at {
                    Some(s) => s,
                    None => now,
                };
                let passed: u128 = if now >= started { now - started } else { 0 };
                if passed < self.transfer {
                    self.transfer_started_at = Some(started);
                    None
                } else {
                    self.transfer_started_at = None;
                    Some(id)
                }
            },
            None => {
                self.transfer_started_at = None;
                None
            },
        }
    }
}

/// A share keeps the transfer timeout it captured when it became active: as
/// long as the same share stays under way, later settings change neither its
/// window nor its start.
pub proof fn lemma_admitted_transfer_keeps_its_timeout(
    t: TimeoutsModel,
    searching: bool,
    id: u64,
    phase: Phase,
    discovery_timeout_secs: u64,
    transfer_timeout_secs: u64,
    now: u128,
)
    requires
        t.transfer_share_id == Some(id),
        is_under_way(phase),
    ensures
        ({
            let c = t.capture(searching, Some((id, phase)), discovery_timeout_secs, transfer_timeout_secs, now);
            &&& c.transfer == t.transfer
            &&& c.transfer_share_id == Some(id)
            &&& (phase == Phase::Transferring && t.transfer_started_at is Some) ==> c.transfer_started_at == t.transfer_started_at
        }),
{
}

/// A running search keeps the window it captured when it began, whatever the
/// settings say later.
pub proof fn lemma_running_search_keeps_its_window(
    t: TimeoutsModel,
    active: Option<(u64, Phase)>,
    discovery_timeout_secs: u64,
    transfer_timeout_secs: u64,
    now: u128,
)
    requires
        t.discovery_started_at is Some,
    ensures
        ({
            let c = t.capture(true, active, discovery_timeout_secs, transfer_timeout_secs, now);
            &&& c.discovery == t.discovery
            &&& c.discovery_started_at == t.discovery_started_at
        }),
{
}

/// Whether the active share is transferring and its captured window has
/// passed since it began transferring (or begins now with no window at all).
pub open spec fn transfer_overdue(t: TimeoutsModel, active: Option<(u64, Phase)>, now: u128) -> bool {
    match active {
        Some((_, phase)) => phase == Phase::Transferring && match t.transfer_started_at {
            Some(s) => elapsed(s, now) >= t.transfer,
            None => t.transfer == 0,
        },
        None => false,
    }
}

/// A transfer fails for time exactly when its captured window has passed
/// since it began transferring, the share named is the active one, and a
/// share that is not transferring never fails for time.
pub proof fn lemma_transfer_deadline(t: TimeoutsModel, active: Option<(u64, Phase)>, now: u128)
    ensures
        t.check_transfer(active, now).1 is Some <==> transfer_overdue(t, active, now),
        t.check_transfer(active, now).1 matches Some(id) ==> (active matches Some((a, _)) && a == id),
{
}

} // verus!
