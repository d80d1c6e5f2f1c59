//! Daemon-owned permission, activation, and inbound admission.
//!
//! Visibility is either a saved policy (`discoverable = true`, open until the
//! policy is turned off) or a temporary request that closes by itself 600
//! boot-clock seconds after activation succeeds. Every opening is tagged with a
//! fresh generation, so an activation or offer from an older opening is never
//! honoured. Resources released by a revocation are queued for the owner to
//! close.

use vstd::prelude::*;
use crate::clock::{MAX_NANOS, NANOS_PER_SEC, saturating_add, saturating_add_spec};
use crate::consent::{ConsentEvent, ConsentOutcome, PendingConsent, is_open, lemma_after, lemma_observe_then};

verus! {

broadcast use lemma_after;

/// How long a temporary (not saved) opening stays discoverable, in nanoseconds.
pub const TEMPORARY_LIFETIME: u128 = 600_000_000_000;

/// Public inbound visibility phase.
#[derive(Clone, Copy, Debug, PartialEq, Eq, Structural)]
pub enum VisibilityState {
    /// Not discoverable.
    Closed,
    /// Advertisement and listeners are being started.
    Starting,
    /// Discoverable and admitting offers.
    Open,
    /// Activation failed.
    Unavailable,
}

/// Public summary of inbound visibility.
#[derive(Debug)]
pub struct VisibilityStatus {
    /// Whether the saved policy keeps the endpoint discoverable.
    pub discoverable: bool,
    /// Whether an opening is requested.
    pub requested: bool,
    /// Whether the requested opening is temporary.
    pub temporary: bool,
    /// Whole seconds, rounded up, until a temporary opening closes.
    pub remaining_secs: Option<u64>,
    /// Media published by the current opening.
    pub available_media: Vec<String>,
    /// The last activation or release failure of the current opening.
    pub error: Option<String>,
}

/// The abstract state of [`Visibility`].
pub ghost struct VisibilityModel<R> {
    /// Tag of the current opening; bumped by every request and revocation.
    pub generation: u64,
    /// Saved discoverability policy.
    pub policy: bool,
    /// Whether an opening is requested.
    pub requested: bool,
    /// Public phase.
    pub phase: VisibilityState,
    /// Boot-clock instant at which a temporary opening closes.
    pub deadline: Option<u128>,
    /// Resources held by the current opening.
    pub resources: Option<R>,
    /// Media published by the current opening.
    pub media: Seq<String>,
    /// Last failure of the current opening.
    pub error: Option<String>,
    /// The admitted consent, if any.
    pub pending: Option<PendingConsent>,
    /// Resources released and not yet handed to the owner.
    pub released: Seq<R>,
}

/// Adds released resources to the queue.
pub open spec fn queue_release<R>(released: Seq<R>, resources: Option<R>) -> Seq<R> {
    match resources {
        Some(r) => released.push(r),
        None => released,
    }
}

impl<R> VisibilityModel<R> {
    /// Revokes the current opening; an explicit revocation also cancels the
    /// admitted consent.
    pub open spec fn revoke(self, explicit: bool, now: u128) -> VisibilityModel<R> {
        VisibilityModel {
            generation: (self.generation + 1) as u64,
            requested: false,
            phase: VisibilityState::Closed,
            deadline: None,
            resources: None,
            media: Seq::empty(),
            error: None,
            pending: if explicit && self.pending is Some {
                Some(self.pending->0.after(ConsentEvent::Cancel, now))
            } else {
                self.pending
            },
            released: queue_release(self.released, self.resources),
            ..self
        }
    }

    /// Closes a temporary opening whose deadline has passed.
    pub open spec fn expire(self, now: u128) -> VisibilityModel<R> {
        if self.deadline matches Some(d) && now >= d {
            self.revoke(false, now)
        } else {
            self
        }
    }

    /// Requests an opening unless one is already requested.
    pub open spec fn request(self) -> (VisibilityModel<R>, Option<u64>) {
        if self.requested {
            (self, None)
        } else {
            let generation = (self.generation + 1) as u64;
            (VisibilityModel {
                generation,
                requested: true,
                phase: VisibilityState::Starting,
                deadline: None,
                error: None,
                ..self
            }, Some(generation))
        }
    }

    /// Applies a saved policy.
    pub open spec fn set_policy(self, policy: bool, now: u128) -> (VisibilityModel<R>, Option<u64>) {
        let s = self.expire(now);
        if s.policy == policy {
            (s, None)
        } else if policy {
            VisibilityModel { policy: true, deadline: None, ..s }.request()
        } else {
            (VisibilityModel { policy: false, ..s }.revoke(true, now), None)
        }
    }

    /// Finishes activation for `generation`.
    pub open spec fn complete_activation(
        self,
        generation: u64,
        result: Result<(R, Seq<String>), String>,
        now: u128,
    ) -> VisibilityModel<R> {
        let s = self.expire(now);
        if s.generation != generation || !s.requested || s.phase != VisibilityState::Starting {
            match result {
                Ok((r, _)) => VisibilityModel { released: s.released.push(r), ..s },
                Err(_) => s,
            }
        } else {
            match result {
                Ok((r, media)) => VisibilityModel {
                    media,
                    resources: Some(r),
                    released: queue_release(s.released, s.resources),
                    phase: VisibilityState::Open,
                    deadline: if s.policy {
                        None
                    } else {
                        Some(saturating_add_spec(now, TEMPORARY_LIFETIME))
                    },
                    ..s
                },
                Err(e) => VisibilityModel {
                    requested: false,
                    phase: VisibilityState::Unavailable,
                    error: Some(e),
                    ..s
                },
            }
        }
    }

    /// Whether offers of `generation` may be proposed and admitted.
    pub open spec fn admits(self, generation: u64) -> bool {
        self.phase == VisibilityState::Open && self.requested && self.generation == generation
    }

    /// Whether the admitted consent still blocks a new one at `now`.
    pub open spec fn prior_blocks(self, now: u128) -> bool {
        self.pending matches Some(p) && (p.outcome_at(now) is Pending
            || p.outcome_at(now) is Accepted)
    }

    /// This state with another admitted consent.
    pub open spec fn with_pending(self, pending: Option<PendingConsent>) -> VisibilityModel<R> {
        VisibilityModel { pending, ..self }
    }

    /// The admitted consent after it was read at `now`.
    pub open spec fn observed_pending(self, now: u128) -> Option<PendingConsent> {
        match self.pending {
            Some(p) => Some(p.after(ConsentEvent::Observe, now)),
            None => None,
        }
    }

    /// Admission of a proposed offer at `now`: refused (and rejected) when
    /// its opening is gone or an earlier admitted offer is pending or
    /// accepted, refused as it stands when it was already decided, else
    /// admitted as the one pending consent.
    pub open spec fn admission(self, consent: PendingConsent, now: u128) -> (VisibilityModel<R>, Result<(), PendingConsent>) {
        let s = self.expire(now);
        if !s.admits(consent.generation_spec()) || s.prior_blocks(now) {
            (s.with_pending(s.observed_pending(now)), Err(consent.after(ConsentEvent::Reject(0), now)))
        } else if !consent.event_applied(ConsentEvent::Admit, now) {
            (s.with_pending(s.observed_pending(now)), Err(consent.after(ConsentEvent::Admit, now)))
        } else {
            (s.with_pending(Some(consent.after(ConsentEvent::Admit, now))), Ok(()))
        }
    }

    /// Whole seconds, rounded up, until the deadline.
    pub open spec fn remaining_secs(self, now: u128) -> Option<u64> {
        match self.deadline {
            Some(d) => {
                let remaining: int = if d > now { d - now } else { 0 };
                Some((remaining / NANOS_PER_SEC as int
                    + if remaining % NANOS_PER_SEC as int != 0 { 1int } else { 0int }) as u64)
            },
            None => None,
        }
    }

    /// The remaining time fits the public whole-second count.
    pub open spec fn remaining_fits(self, now: u128) -> bool {
        self.deadline matches Some(d) ==> d <= now || d - now <= u64::MAX as int * NANOS_PER_SEC as int
    }
}

/// Shared inbound visibility, generic over the resources an opening holds.
pub struct Visibility<R> {
    generation: u64,
    policy: bool,
    requested: bool,
    phase: VisibilityState,
    deadline: Option<u128>,
    resources: Option<R>,
    media: Vec<String>,
    error: Option<String>,
    pending: Option<PendingConsent>,
    released: Vec<R>,
}

impl<R> View for Visibility<R> {
    type V = VisibilityModel<R>;

    closed spec fn view(&self) -> VisibilityModel<R> {
        VisibilityModel {
            generation: self.generation,
            policy: self.policy,
            requested: self.requested,
            phase: self.phase,
            deadline: self.deadline,
            resources: self.resources,
            media: self.media@,
            error: self.error,
            pending: self.pending,
            released: self.released@,
        }
    }
}

impl<R> Visibility<R> {
    /// Deadlines are valid durations.
    pub open spec fn wf(&self) -> bool {
        self@.deadline matches Some(d) ==> d <= MAX_NANOS
    }

    /// Room for two more generations in one call.
    pub open spec fn has_generations(&self) -> bool {
        self@.generation <= u64::MAX - 2
    }

    /// A closed visibility with no saved policy.
    pub fn new() -> (r: Visibility<R>)
        ensures
            r.wf(),
            r@.generation == 0,
            !r@.policy,
            !r@.requested,
            r@.phase == VisibilityState::Closed,
            r@.deadline is None,
            r@.resources is None,
            r@.media.len() == 0,
            r@.error is None,
            r@.pending is None,
            r@.released.len() == 0,
    {
        Visibility {
            generation: 0,
            policy: false,
            requested: false,
            phase: VisibilityState::Closed,
            deadline: None,
            resources: None,
            media: Vec::new(),
            error: None,
            pending: None,
            released: Vec::new(),
        }
    }

    /// The current generation.
    pub fn generation(&self) -> (r: u64)
        ensures
            r == self@.generation,
    {
        self.generation
    }

    fn revoke(&mut self, explicit: bool, now: u128)
        requires
            old(self)@.generation < u64::MAX,
        ensures
            final(self)@ == old(self)@.revoke(explicit, now),
    {
        self.generation = self.generation + 1;
        self.requested = false;
        self.phase = VisibilityState::Closed;
        self.deadline = None;
        self.media = Vec::new();
        self.error = None;
        if explicit {
            match &mut self.pending {
                Some(pending) => pending.cancel(now),
                None => {},
            }
        }
        match self.resources.take() {
            Some(r) => self.released.push(r),
            None => {},
        }
    }

    fn expire(&mut self, now: u128)
        requires
            old(self)@.generation < u64::MAX,
        ensures
            final(self)@ == old(self)@.expire(now),
    {
        let expired = match self.deadline {
            Some(d) => now >= d,
            None => false,
        };
        if expired {
            self.revoke(false, now);
        }
    }

    fn request(&mut self) -> (r: Option<u64>)
        requires
            old(self)@.generation < u64::MAX,
        ensures
            (final(self)@, r) == old(self)@.request(),
    {
        if self.requested {
            return None;
        }
        self.generation = self.generation + 1;
        self.requested = true;
        self.phase = VisibilityState::Starting;
        self.deadline = None;
        self.error = None;
        Some(self.generation)
    }

    /// Requests a temporary opening; returns the generation to activate, or
    /// `None` when an opening is already requested.
    pub fn request_open(&mut self, now: u128) -> (r: Option<u64>)
        requires
            old(self).wf(),
            old(self).has_generations(),
        ensures
            final(self).wf(),
            (final(self)@, r) == old(self)@.expire(now).request(),
    {
        self.expire(now);
        self.request()
    }

    /// Applies the saved policy; returns the generation to activate when the
    /// policy newly turns visibility on.
    pub fn set_policy(&mut self, policy: bool, now: u128) -> (r: Option<u64>)
        requires
            old(self).wf(),
            old(self).has_generations(),
        ensures
            final(self).wf(),
            (final(self)@, r) == old(self)@.set_policy(policy, now),
    {
        self.expire(now);
        if self.policy == policy {
            return None;
        }
        self.policy = policy;
        if policy {
            self.deadline = None;
            self.request()
        } else {
            self.revoke(true, now);
            None
        }
    }

    /// Closes visibility explicitly, cancelling the admitted consent.
    pub fn close(&mut self, now: u128)
        requires
            old(self).wf(),
            old(self).has_generations(),
        ensures
            final(self).wf(),
            final(self)@ == old(self)@.expire(now).revoke(true, now),
    {
        self.expire(now);
        self.revoke(true, now);
    }

    /// Finishes activation of `generation` with the started resources and
    /// their media, or with the activation error. Resources of a stale
    /// activation are queued for release instead of opening visibility.
    pub fn complete_activation(
        &mut self,
        generation: u64,
        result: Result<(R, Vec<String>), String>,
        now: u128,
    )
        requires
            old(self).wf(),
            old(self).has_generations(),
            now <= MAX_NANOS,
        ensures
            final(self).wf(),
            final(self)@ == old(self)@.complete_activation(
                generation,
                match result {
                    Ok((r, media)) => Ok((r, media@)),
                    Err(e) => Err(e),
                },
                now,
            ),
    {
        self.expire(now);
        if self.generation != generation || !self.requested
            || !matches!(self.phase, VisibilityState::Starting) {
            match result {
                Ok((r, _media)) => self.released.push(r),
                Err(_) => {},
            }
            return;
        }
        match result {
            Ok((r, media)) => {
                self.media = media;
                match self.resources.take() {
                    Some(previous) => self.released.push(previous),
                    None => {},
                }
                self.resources = Some(r);
                self.phase = VisibilityState::Open;
                self.deadline = if self.policy {
                    None
                } else {
                    Some(saturating_add(now, TEMPORARY_LIFETIME))
                };
            },
            Err(error) => {
                self.requested = false;
                self.phase = VisibilityState::Unavailable;
                self.error = Some(error);
            },
        }
    }

    /// Whether `generation` is still the activation being started.
    pub fn activation_requested(&mut self, generation: u64, now: u128) -> (r: bool)
        requires
            old(self).wf(),
            old(self).has_generations(),
        ensures
            final(self).wf(),
            final(self)@ == old(self)@.expire(now),
            r == (final(self)@.generation == generation && final(self)@.requested
                && final(self)@.phase == VisibilityState::Starting),
    {
        self.expire(now);
        self.generation == generation && self.requested
            && matches!(self.phase, VisibilityState::Starting)
    }

    /// The generation of the current opening while it is open.
    pub fn generation_if_open(&mut self, now: u128) -> (r: Option<u64>)
        requires
            old(self).wf(),
            old(self).has_generations(),
        ensures
            final(self).wf(),
            final(self)@ == old(self)@.expire(now),
            r == (if final(self)@.phase == VisibilityState::Open && final(self)@.requested {
                Some(final(self)@.generation)
            } else {
                None
            }),
    {
        self.expire(now);
        if matches!(self.phase, VisibilityState::Open) && self.requested {
            Some(self.generation)
        } else {
            None
        }
    }

    /// Proposes an offer for `generation` with a consent deadline of `timeout`
    /// from now, while that opening is open.
    pub fn propose(&mut self, generation: u64, timeout: u128, now: u128) -> (r: Option<PendingConsent>)
        requires
            old(self).wf(),
            old(self).has_generations(),
            now <= MAX_NANOS,
            timeout <= MAX_NANOS,
        ensures
            final(self).wf(),
            final(self)@ == old(self)@.expire(now),
            match r {
                Some(c) => final(self)@.admits(generation) && c.wf()
                    && c.generation_spec() == generation
                    && c.deadline_spec() == saturating_add_spec(now, timeout)
                    && c.stored_outcome() == ConsentOutcome::Offered
                    && c.share_id_spec() is None,
                None => !final(self)@.admits(generation),
            },
    {
        self.expire(now);
        if matches!(self.phase, VisibilityState::Open) && self.requested && self.generation == generation {
            Some(PendingConsent::new(generation, now, timeout))
        } else {
            None
        }
    }

    /// Admits a proposed offer while its opening is still open and no earlier
    /// admitted offer is pending or accepted. A refused offer is rejected and
    /// handed back.
    pub fn admit_offer(&mut self, consent: PendingConsent, now: u128) -> (r: Result<(), PendingConsent>)
        requires
            old(self).wf(),
            old(self).has_generations(),
        ensures
            final(self).wf(),
            (final(self)@, r) == old(self)@.admission(consent, now),
    {
        self.expire(now);
        let mut consent = consent;
        let blocked = match &mut self.pending {
            Some(prior) => {
                let outcome = prior.outcome(now);
                matches!(outcome, ConsentOutcome::Pending) || matches!(outcome, ConsentOutcome::Accepted(_))
            },
            None => false,
        };
        if !matches!(self.phase, VisibilityState::Open) || !self.requested
            || self.generation != consent.generation() || blocked {
            let _rejected = consent.reject(now, 0);
            return Err(consent);
        }
        if !consent.admit_offer(now) {
            return Err(consent);
        }
        self.pending = Some(consent);
        Ok(())
    }

    /// Public phase and status at `now`.
    pub fn status(&mut self, now: u128) -> (r: (VisibilityState, VisibilityStatus))
        requires
            old(self).wf(),
            old(self).has_generations(),
            old(self)@.expire(now).remaining_fits(now),
        ensures
            final(self).wf(),
            final(self)@ == old(self)@.expire(now),
            r.0 == final(self)@.phase,
            r.1.discoverable == final(self)@.policy,
            r.1.requested == final(self)@.requested,
            r.1.temporary == (final(self)@.requested && !final(self)@.policy),
            r.1.remaining_secs == final(self)@.remaining_secs(now),
            r.1.available_media@ == final(self)@.media,
            r.1.error == final(self)@.error,
    {
        self.expire(now);
        let remaining_secs = match self.deadline {
            Some(deadline) => {
                let remaining: u128 = if deadline > now { deadline - now } else { 0 };
                let whole: u128 = remaining / NANOS_PER_SEC;
                let partial: u128 = if remaining % NANOS_PER_SEC != 0 { 1 } else { 0 };
                Some((whole + partial) as u64)
            },
            None => None,
        };
        (self.phase, VisibilityStatus {
            discoverable: self.policy,
            requested: self.requested,
            temporary: self.requested && !self.policy,
            remaining_secs,
            available_media: self.media.clone(),
            error: self.error.clone(),
        })
    }

    /// Hands the released resources to the owner for closing, with the
    /// generation they were released under.
    pub fn take_released(&mut self) -> (r: (Vec<R>, u64))
        ensures
            r.0@ == old(self)@.released,
            r.1 == old(self)@.generation,
            final(self)@ == (VisibilityModel { released: Seq::<R>::empty(), ..old(self)@ }),
    {
        let mut released = Vec::new();
        core::mem::swap(&mut released, &mut self.released);
        (released, self.generation)
    }

    /// Records a failure to close released resources, unless a newer opening
    /// has started since they were released.
    pub fn release_failed(&mut self, generation: u64, error: String)
        ensures
            final(self)@ == (if old(self)@.generation == generation {
                (VisibilityModel { error: Some(error), ..old(self)@ })
            } else {
                old(self)@
            }),
    {
        if self.generation == generation {
            self.error = Some(error);
        }
    }

    /// The outcome of the admitted consent at `now`.
    pub fn pending_outcome(&mut self, now: u128) -> (r: Option<ConsentOutcome>)
        ensures
            final(self)@ == old(self)@.with_pending(old(self)@.observed_pending(now)),
            r == (match old(self)@.pending {
                Some(p) => Some(p.outcome_at(now)),
                None => None,
            }),
    {
        match &mut self.pending {
            Some(pending) => Some(pending.outcome(now)),
            None => None,
        }
    }

    /// Binds the admitted consent to the share the coordinator created.
    pub fn bind_pending(&mut self, share_id: u64, now: u128)
        ensures
            final(self)@ == old(self)@.with_pending(match old(self)@.pending {
                Some(p) => Some(p.after(ConsentEvent::Bind(share_id), now)),
                None => None,
            }),
    {
        match &mut self.pending {
            Some(pending) => pending.bind(now, share_id),
            None => {},
        }
    }

    /// Accepts the admitted consent for `share_id`.
    pub fn accept_pending(&mut self, share_id: u64, now: u128) -> (r: bool)
        ensures
            match old(self)@.pending {
                Some(p) => {
                    &&& final(self)@ == old(self)@.with_pending(Some(p.after(ConsentEvent::Accept(share_id), now)))
                    &&& r == p.event_applied(ConsentEvent::Accept(share_id), now)
                },
                None => final(self)@ == old(self)@ && !r,
            },
    {
        match &mut self.pending {
            Some(pending) => pending.accept(now, share_id),
            None => false,
        }
    }

    /// Rejects the admitted consent when it is bound to `share_id`.
    pub fn reject_pending(&mut self, share_id: u64, now: u128) -> (r: bool)
        ensures
            match old(self)@.pending {
                Some(p) => if p.share_id_spec() == Some(share_id) {
                    &&& final(self)@ == old(self)@.with_pending(Some(p.after(ConsentEvent::Reject(share_id), now)))
                    &&& r == p.event_applied(ConsentEvent::Reject(share_id), now)
                } else {
                    &&& final(self)@ == old(self)@.with_pending(Some(p.after(ConsentEvent::Observe, now)))
                    &&& !r
                },
                None => final(self)@ == old(self)@ && !r,
            },
    {
        match &mut self.pending {
            Some(pending) => {
                let bound = match pending.share_id(now) {
                    Some(id) => id == share_id,
                    None => false,
                };
                proof {
                    lemma_observe_then(old(self)@.pending->0, ConsentEvent::Reject(share_id), now);
                }
                if bound {
                    pending.reject(now, share_id)
                } else {
                    false
                }
            },
            None => false,
        }
    }

    /// Forgets the admitted consent once its share has ended.
    pub fn clear_pending(&mut self)
        ensures
            final(self)@ == old(self)@.with_pending(None),
    {
        self.pending = None;
    }
}


/// A temporary opening closes by itself: once activation succeeded without a
/// saved policy, any instant 600 seconds or more later revokes the opening,
/// releases its resources, and no offer of any generation is admitted.
pub proof fn lemma_temporary_opening_expires<R>(
    v: VisibilityModel<R>,
    generation: u64,
    resources: R,
    media: Seq<String>,
    opened_at: u128,
    now: u128,
)
    requires
        v.expire(opened_at).generation == generation,
        v.expire(opened_at).requested,
        v.expire(opened_at).phase == VisibilityState::Starting,
        !v.policy,
        opened_at + TEMPORARY_LIFETIME <= now,
        now <= MAX_NANOS,
    ensures
        ({
            let opened = v.complete_activation(generation, Ok((resources, media)), opened_at);
            let later = opened.expire(now);
            &&& opened.phase == VisibilityState::Open
            &&& opened.deadline == Some((opened_at + TEMPORARY_LIFETIME) as u128)
            &&& later.phase == VisibilityState::Closed
            &&& !later.requested
            &&& later.resources is None
            &&& later.released.last() == resources
            &&& later.pending == opened.pending
            &&& forall|g: u64| !(#[trigger] later.admits(g))
        }),
{
}

/// An opening under the saved policy has no deadline: it never expires, at
/// any later instant.
pub proof fn lemma_saved_opening_never_expires<R>(
    v: VisibilityModel<R>,
    generation: u64,
    resources: R,
    media: Seq<String>,
    opened_at: u128,
    now: u128,
)
    requires
        v.expire(opened_at).generation == generation,
        v.expire(opened_at).requested,
        v.expire(opened_at).phase == VisibilityState::Starting,
        v.policy,
    ensures
        v.complete_activation(generation, Ok((resources, media)), opened_at).phase
            == VisibilityState::Open,
        v.complete_activation(generation, Ok((resources, media)), opened_at).deadline is None,
        v.complete_activation(generation, Ok((resources, media)), opened_at).expire(now)
            == v.complete_activation(generation, Ok((resources, media)), opened_at),
{
}

/// Passive expiry leaves the admitted consent to its own deadline, while an
/// explicit revocation (closing, or turning the saved policy off) cancels an
/// open consent.
pub proof fn lemma_revocation_and_consent<R>(v: VisibilityModel<R>, now: u128)
    ensures
        v.expire(now).pending == v.pending,
        v.pending matches Some(p) ==> {
            &&& v.revoke(true, now).pending == Some(p.after(ConsentEvent::Cancel, now))
            &&& (is_open(p.outcome_at(now))
                ==> v.revoke(true, now).pending->0.stored_outcome() == ConsentOutcome::Cancelled)
        },
{
}

/// A late activation never reopens: after visibility is closed while an
/// activation is under way, the activation's resources are released and the
/// state stays closed.
pub proof fn lemma_close_during_activation<R>(
    v: VisibilityModel<R>,
    resources: R,
    media: Seq<String>,
    closed_at: u128,
    now: u128,
)
    requires
        v.phase == VisibilityState::Starting,
        v.requested,
        v.deadline is None,
        v.generation < u64::MAX,
    ensures
        ({
            let closed = v.expire(closed_at).revoke(true, closed_at);
            let late = closed.complete_activation(v.generation, Ok((resources, media)), now);
            &&& late.phase == VisibilityState::Closed
            &&& !late.requested
            &&& late.resources is None
            &&& late.released.last() == resources
            &&& late.media.len() == 0
        }),
{
}

/// A failed activation never admits an offer.
pub proof fn lemma_failed_activation_never_admits<R>(
    v: VisibilityModel<R>,
    generation: u64,
    error: String,
    now: u128,
)
    requires
        v.expire(now).generation == generation,
        v.expire(now).requested,
        v.expire(now).phase == VisibilityState::Starting,
    ensures
        v.complete_activation(generation, Err(error), now).phase == VisibilityState::Unavailable,
        !v.complete_activation(generation, Err(error), now).requested,
        forall|g: u64| !(#[trigger] v.complete_activation(generation, Err(error), now).admits(g)),
{
}

/// Admission tokens are never reused: requests and revocations move to a new
/// generation, and no operation moves back to an older one.
pub proof fn lemma_generations_increase<R>(v: VisibilityModel<R>, policy: bool, now: u128)
    requires
        v.generation <= u64::MAX - 2,
    ensures
        v.expire(now).generation >= v.generation,
        v.revoke(true, now).generation == v.generation + 1,
        v.request().1 matches Some(g) ==> g == v.generation + 1 && v.request().0.generation == g,
        v.request().1 is None ==> v.request().0 == v,
        v.set_policy(policy, now).0.generation >= v.generation,
        v.set_policy(policy, now).1 matches Some(g) ==> g > v.generation,
{
}

/// At most one offer is admitted at a time: while the admitted consent is
/// pending or accepted, any other offer is refused and rejected, and the
/// admitted consent stays in place.
pub proof fn lemma_single_admitted_offer<R>(v: VisibilityModel<R>, consent: PendingConsent, now: u128)
    requires
        v.expire(now).prior_blocks(now),
    ensures
        v.admission(consent, now).1 == Err::<(), PendingConsent>(consent.after(ConsentEvent::Reject(0), now)),
        v.admission(consent, now).0.pending == v.observed_pending(now),
        v.admission(consent, now).0.prior_blocks(now),
{
    lemma_observe_then(v.pending->0, ConsentEvent::Observe, now);
}

} // verus!
