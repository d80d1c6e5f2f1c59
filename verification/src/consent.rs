//! One offer's admission, decision, and independent boot-clock deadline.
//!
//! Every operation first applies the deadline: an offer that is still open
//! (`Offered` or `Pending`) when the clock reaches its deadline becomes
//! `TimedOut`, so no later call can accept it.

use vstd::prelude::*;
use crate::clock::{MAX_NANOS, saturating_add, saturating_add_spec};

verus! {

/// Where one inbound offer stands.
#[derive(Clone, Copy, Debug, PartialEq, Eq, Structural)]
pub enum ConsentOutcome {
    /// Proposed by the network, not yet admitted by visibility.
    Offered,
    /// Admitted and waiting for the local user.
    Pending,
    /// The local user accepted the bound share.
    Accepted(u64),
    /// The offer was rejected, locally or by admission.
    Rejected(u64),
    /// Visibility was revoked or the offer withdrawn.
    Cancelled,
    /// The captured deadline passed before a decision.
    TimedOut,
}

/// Whether an offer can still be decided.
pub open spec fn is_open(outcome: ConsentOutcome) -> bool {
    outcome is Offered || outcome is Pending
}

/// Operations on a pending consent, used to state its laws.
pub enum ConsentEvent {
    /// Visibility admits the offer.
    Admit,
    /// The coordinator binds the offer to a share identifier.
    Bind(u64),
    /// The local user accepts a share.
    Accept(u64),
    /// The offer is rejected with a share identifier.
    Reject(u64),
    /// The offer is withdrawn if it was never admitted.
    CancelUnadmitted,
    /// The offer is withdrawn while still open.
    Cancel,
    /// The state is only read.
    Observe,
}

/// One offer's consent, with its deadline captured when it was proposed.
#[derive(Clone, Copy, Debug)]
pub struct PendingConsent {
    generation: u64,
    deadline: u128,
    outcome: ConsentOutcome,
    share_id: Option<u64>,
}

impl PendingConsent {
    /// The visibility generation that proposed this offer.
    pub closed spec fn generation_spec(&self) -> u64 {
        self.generation
    }

    /// The boot-clock instant at which an open offer times out.
    pub closed spec fn deadline_spec(&self) -> u128 {
        self.deadline
    }

    /// The outcome as last stored, before the deadline is applied.
    pub closed spec fn stored_outcome(&self) -> ConsentOutcome {
        self.outcome
    }

    /// The share identifier bound to this offer, if any.
    pub closed spec fn share_id_spec(&self) -> Option<u64> {
        self.share_id
    }

    /// The deadline lies within the duration range.
    pub closed spec fn wf(&self) -> bool {
        self.deadline <= MAX_NANOS
    }

    /// The outcome observed at `now`, after applying the deadline.
    pub open spec fn outcome_at(&self, now: u128) -> ConsentOutcome {
        if is_open(self.stored_outcome()) && now >= self.deadline_spec() {
            ConsentOutcome::TimedOut
        } else {
            self.stored_outcome()
        }
    }

    /// The outcome after applying `event` at `now`.
    pub open spec fn next_outcome(&self, event: ConsentEvent, now: u128) -> ConsentOutcome {
        let current = self.outcome_at(now);
        match event {
            ConsentEvent::Admit => if current is Offered {
                ConsentOutcome::Pending
            } else {
                current
            },
            ConsentEvent::Accept(id) => if current is Pending && self.share_id_spec() == Some(id) {
                ConsentOutcome::Accepted(id)
            } else {
                current
            },
            ConsentEvent::Reject(id) => if is_open(current) {
                ConsentOutcome::Rejected(id)
            } else {
                current
            },
            ConsentEvent::CancelUnadmitted => if current is Offered {
                ConsentOutcome::Cancelled
            } else {
                current
            },
            ConsentEvent::Cancel => if is_open(current) {
                ConsentOutcome::Cancelled
            } else {
                current
            },
            ConsentEvent::Bind(_) | ConsentEvent::Observe => current,
        }
    }

    /// The share binding after applying `event`.
    pub open spec fn next_share_id(&self, event: ConsentEvent) -> Option<u64> {
        match event {
            ConsentEvent::Bind(id) => Some(id),
            _ => self.share_id_spec(),
        }
    }

    /// Whether `event` applied at `now` changed the decision as its caller asked.
    pub open spec fn event_applied(&self, event: ConsentEvent, now: u128) -> bool {
        let current = self.outcome_at(now);
        match event {
            ConsentEvent::Admit => current is Offered,
            ConsentEvent::Accept(id) => current is Pending && self.share_id_spec() == Some(id),
            ConsentEvent::Reject(_) => is_open(current),
            _ => true,
        }
    }

    /// This consent with `event` applied at `now`.
    pub closed spec fn after(&self, event: ConsentEvent, now: u128) -> PendingConsent {
        PendingConsent {
            generation: self.generation,
            deadline: self.deadline,
            outcome: self.next_outcome(event, now),
            share_id: self.next_share_id(event),
        }
    }

    /// A new offer proposed at `now` for `generation`, open until `now + timeout`.
    pub fn new(generation: u64, now: u128, timeout: u128) -> (r: PendingConsent)
        requires
            now <= MAX_NANOS,
            timeout <= MAX_NANOS,
        ensures
            r.wf(),
            r.generation_spec() == generation,
            r.deadline_spec() == saturating_add_spec(now, timeout),
            r.stored_outcome() == ConsentOutcome::Offered,
            r.share_id_spec() == None::<u64>,
    {
        PendingConsent {
            generation,
            deadline: saturating_add(now, timeout),
            outcome: ConsentOutcome::Offered,
            share_id: None,
        }
    }

    /// The visibility generation that proposed this offer.
    pub fn generation(&self) -> (r: u64)
        ensures
            r == self.generation_spec(),
    {
        self.generation
    }

    /// Applies the deadline at `now`.
    fn decision(&mut self, now: u128)
        ensures
            *final(self) == old(self).after(ConsentEvent::Observe, now),
    {
        if (matches!(self.outcome, ConsentOutcome::Offered) || matches!(self.outcome, ConsentOutcome::Pending))
            && now >= self.deadline {
            self.outcome = ConsentOutcome::TimedOut;
        }
    }

    /// Moves an offered consent to pending; false once decided or timed out.
    pub fn admit_offer(&mut self, now: u128) -> (r: bool)
        ensures
            *final(self) == old(self).after(ConsentEvent::Admit, now),
            r == old(self).event_applied(ConsentEvent::Admit, now),
    {
        self.decision(now);
        if !matches!(self.outcome, ConsentOutcome::Offered) {
            return false;
        }
        self.outcome = ConsentOutcome::Pending;
        true
    }

    /// Records the share identifier the coordinator assigned to this offer.
    pub fn bind(&mut self, now: u128, share_id: u64)
        ensures
            *final(self) == old(self).after(ConsentEvent::Bind(share_id), now),
    {
        self.decision(now);
        self.share_id = Some(share_id);
    }

    /// The bound share identifier, after applying the deadline.
    pub fn share_id(&mut self, now: u128) -> (r: Option<u64>)
        ensures
            *final(self) == old(self).after(ConsentEvent::Observe, now),
            r == old(self).share_id_spec(),
    {
        self.decision(now);
        self.share_id
    }

    /// The outcome at `now`.
    pub fn outcome(&mut self, now: u128) -> (r: ConsentOutcome)
        ensures
            *final(self) == old(self).after(ConsentEvent::Observe, now),
            r == old(self).outcome_at(now),
    {
        self.decision(now);
        self.outcome
    }

    /// Accepts the bound share while the offer is pending and in time.
    pub fn accept(&mut self, now: u128, share_id: u64) -> (r: bool)
        ensures
            *final(self) == old(self).after(ConsentEvent::Accept(share_id), now),
            r == old(self).event_applied(ConsentEvent::Accept(share_id), now),
    {
        self.decision(now);
        let bound = match self.share_id {
            Some(id) => id == share_id,
            None => false,
        };
        if !matches!(self.outcome, ConsentOutcome::Pending) || !bound {
            return false;
        }
        self.outcome = ConsentOutcome::Accepted(share_id);
        true
    }

    /// Rejects an open offer.
    pub fn reject(&mut self, now: u128, share_id: u64) -> (r: bool)
        ensures
            *final(self) == old(self).after(ConsentEvent::Reject(share_id), now),
            r == old(self).event_applied(ConsentEvent::Reject(share_id), now),
    {
        self.decision(now);
        if !(matches!(self.outcome, ConsentOutcome::Offered) || matches!(self.outcome, ConsentOutcome::Pending)) {
            return false;
        }
        self.outcome = ConsentOutcome::Rejected(share_id);
        true
    }

    /// Withdraws an offer that visibility never admitted.
    pub fn cancel_unadmitted(&mut self, now: u128)
        ensures
            *final(self) == old(self).after(ConsentEvent::CancelUnadmitted, now),
    {
        self.decision(now);
        if matches!(self.outcome, ConsentOutcome::Offered) {
            self.outcome = ConsentOutcome::Cancelled;
        }
    }

    /// Withdraws an open offer.
    pub fn cancel(&mut self, now: u128)
        ensures
            *final(self) == old(self).after(ConsentEvent::Cancel, now),
    {
        self.decision(now);
        if matches!(self.outcome, ConsentOutcome::Offered) || matches!(self.outcome, ConsentOutcome::Pending) {
            self.outcome = ConsentOutcome::Cancelled;
        }
    }
}

/// What applying an event changes: only the outcome and the binding.
/// What a transfer worker waiting on a consent does next.
#[derive(Clone, Copy, Debug, PartialEq, Eq, Structural)]
pub enum ConsentWait {
    /// The offer is decided; report this outcome.
    Decided(ConsentOutcome),
    /// Visibility no longer permits the offer before it was admitted; withdraw
    /// it and look again.
    WithdrawUnadmitted,
    /// Still open: serve other commands and poll the connection, then look
    /// again.
    Poll,
}

/// The next step of a worker that observed `outcome`, where `permitted` is
/// whether visibility still permits the offer.
pub open spec fn consent_wait_spec(outcome: ConsentOutcome, permitted: bool) -> ConsentWait {
    if !is_open(outcome) {
        ConsentWait::Decided(outcome)
    } else if outcome is Offered && !permitted {
        ConsentWait::WithdrawUnadmitted
    } else {
        ConsentWait::Poll
    }
}

/// Decides the next step of a worker waiting for local consent.
pub fn consent_wait_step(outcome: ConsentOutcome, permitted: bool) -> (r: ConsentWait)
    ensures
        r == consent_wait_spec(outcome, permitted),
{
    match outcome {
        ConsentOutcome::Offered => if permitted {
            ConsentWait::Poll
        } else {
            ConsentWait::WithdrawUnadmitted
        },
        ConsentOutcome::Pending => ConsentWait::Poll,
        decided => ConsentWait::Decided(decided),
    }
}

pub broadcast proof fn lemma_after(c: PendingConsent, event: ConsentEvent, now: u128)
    ensures
        (#[trigger] c.after(event, now)).generation_spec() == c.generation_spec(),
        c.after(event, now).deadline_spec() == c.deadline_spec(),
        c.after(event, now).stored_outcome() == c.next_outcome(event, now),
        c.after(event, now).share_id_spec() == c.next_share_id(event),
        c.wf() ==> c.after(event, now).wf(),
{
}

/// Reading a consent only applies its deadline, so an operation at the same
/// instant after a read acts as it would have without the read.
pub proof fn lemma_observe_then(c: PendingConsent, event: ConsentEvent, now: u128)
    ensures
        c.after(ConsentEvent::Observe, now).after(event, now) == c.after(event, now),
        c.after(ConsentEvent::Observe, now).event_applied(event, now) == c.event_applied(event, now),
        c.after(ConsentEvent::Observe, now).outcome_at(now) == c.outcome_at(now),
{
}

/// A decided offer stays decided: once the outcome observed at some instant is
/// `Accepted`, `Rejected`, `Cancelled` or `TimedOut`, no operation at that
/// instant or later changes it.
pub proof fn lemma_decision_is_final(c: PendingConsent, event: ConsentEvent, earlier: u128, now: u128)
    requires
        earlier <= now,
        !is_open(c.outcome_at(earlier)),
    ensures
        c.next_outcome(event, now) == c.outcome_at(earlier),
{
}

/// An offer that reaches its deadline while open can never be accepted: every
/// operation at or after the deadline leaves it timed out or decided otherwise,
/// and an accept reports failure.
pub proof fn lemma_deadline_cannot_be_bypassed(c: PendingConsent, share_id: u64, now: u128)
    requires
        is_open(c.stored_outcome()),
        now >= c.deadline_spec(),
    ensures
        c.next_outcome(ConsentEvent::Accept(share_id), now) == ConsentOutcome::TimedOut,
        !c.event_applied(ConsentEvent::Accept(share_id), now),
{
}

/// Acceptance needs admission and a binding: an offer that was never admitted
/// (still `Offered`) or is bound to another share is not accepted.
pub proof fn lemma_accept_requires_pending_binding(c: PendingConsent, share_id: u64, now: u128)
    requires
        !(c.outcome_at(now) is Pending) || c.share_id_spec() != Some(share_id),
    ensures
        !c.event_applied(ConsentEvent::Accept(share_id), now),
        !(c.next_outcome(ConsentEvent::Accept(share_id), now) is Accepted)
            || c.outcome_at(now) is Accepted,
{
}

} // verus!
