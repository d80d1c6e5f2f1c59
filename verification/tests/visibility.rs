use omarchy_quickshare::clock::Clock;
use omarchy_quickshare::consent::{consent_wait_step, ConsentOutcome, ConsentWait, PendingConsent};
use omarchy_quickshare::visibility::{Visibility, VisibilityState};

const SECOND: u128 = 1_000_000_000;

struct Fixture {
    visibility: Visibility<u32>,
    clock: Clock,
    consent_timeout: u128,
    next_share: u64,
}

impl Fixture {
    fn new(consent_timeout_secs: u64) -> Fixture {
        Fixture {
            visibility: Visibility::new(),
            clock: Clock::fake(0),
            consent_timeout: u128::from(consent_timeout_secs) * SECOND,
            next_share: 0,
        }
    }

    fn now(&self) -> u128 {
        self.clock.now()
    }

    fn activate(&mut self, generation: u64) {
        let now = self.now();
        self.visibility.complete_activation(generation, Ok((7, vec![String::from("wifi_lan")])), now);
    }

    fn open(&mut self) {
        let now = self.now();
        let generation = self.visibility.request_open(now).expect("newly requested");
        self.activate(generation);
    }

    fn offer(&mut self) -> u64 {
        let now = self.now();
        let generation = self.visibility.generation_if_open(now).expect("open");
        let consent = self.visibility.propose(generation, self.consent_timeout, now).expect("offer");
        assert!(self.visibility.admit_offer(consent, now).is_ok());
        self.next_share += 1;
        self.visibility.bind_pending(self.next_share, now);
        self.next_share
    }

    fn status(&mut self) -> (VisibilityState, omarchy_quickshare::visibility::VisibilityStatus) {
        let now = self.now();
        self.visibility.status(now)
    }

    fn pending(&mut self) -> Option<ConsentOutcome> {
        let now = self.now();
        self.visibility.pending_outcome(now)
    }

    fn released(&mut self) -> usize {
        self.visibility.take_released().0.len()
    }
}

#[test]
fn temporary_admission_closes_at_600_boot_seconds_without_renewal() {
    let mut fixture = Fixture::new(300);
    fixture.open();
    assert_eq!(fixture.status().1.remaining_secs, Some(600));
    fixture.clock.advance(599);
    let now = fixture.now();
    assert_eq!(fixture.visibility.request_open(now), None);
    assert_eq!(fixture.status().1.remaining_secs, Some(1));
    let admitted = fixture.offer();
    let now = fixture.now();
    assert!(fixture.visibility.reject_pending(admitted, now));
    fixture.visibility.clear_pending();
    fixture.clock.advance(1);
    let now = fixture.now();
    assert_eq!(fixture.visibility.generation_if_open(now), None);
    let (state, status) = fixture.status();
    assert_eq!(state, VisibilityState::Closed);
    assert_eq!(status.remaining_secs, None);
    assert_eq!(fixture.released(), 1);
}

#[test]
fn passive_expiry_preserves_admitted_consent_until_its_captured_deadline() {
    let mut fixture = Fixture::new(20);
    fixture.open();
    fixture.clock.advance(590);
    let share_id = fixture.offer();
    let now = fixture.now();
    assert_eq!(fixture.visibility.set_policy(false, now), None);
    fixture.clock.advance(10);
    assert_eq!(fixture.status().0, VisibilityState::Closed);
    assert_eq!(fixture.pending(), Some(ConsentOutcome::Pending));
    fixture.clock.advance(9);
    let now = fixture.now();
    assert!(fixture.visibility.accept_pending(share_id, now));
    assert_eq!(fixture.pending(), Some(ConsentOutcome::Accepted(share_id)));
}

#[test]
fn delayed_accept_cannot_bypass_captured_consent_timeout() {
    let mut fixture = Fixture::new(20);
    fixture.open();
    fixture.clock.advance(590);
    let share_id = fixture.offer();
    fixture.clock.advance(20);
    let now = fixture.now();
    assert!(!fixture.visibility.accept_pending(share_id, now));
    assert_eq!(fixture.pending(), Some(ConsentOutcome::TimedOut));
}

#[test]
fn stop_and_durable_off_cancel_pending_but_not_saved_off_policy() {
    let mut temporary = Fixture::new(300);
    temporary.open();
    let share_id = temporary.offer();
    let now = temporary.now();
    temporary.visibility.close(now);
    assert!(!temporary.status().1.discoverable);
    assert_eq!(temporary.pending(), Some(ConsentOutcome::Cancelled));
    let now = temporary.now();
    assert!(!temporary.visibility.accept_pending(share_id, now));
    assert_eq!(temporary.released(), 1);

    let mut durable = Fixture::new(300);
    let now = durable.now();
    let generation = durable.visibility.set_policy(true, now).expect("activation");
    durable.activate(generation);
    assert_eq!(durable.status().0, VisibilityState::Open);
    let durable_share_id = durable.offer();
    let now = durable.now();
    assert_eq!(durable.visibility.set_policy(false, now), None);
    let (state, status) = durable.status();
    assert_eq!(state, VisibilityState::Closed);
    assert!(!status.temporary);
    assert_eq!(durable.pending(), Some(ConsentOutcome::Cancelled));
    let now = durable.now();
    assert!(!durable.visibility.accept_pending(durable_share_id, now));
}

#[test]
fn durable_on_upgrades_temporary_lease_without_interrupting_accepted_share() {
    let mut fixture = Fixture::new(300);
    fixture.open();
    let share_id = fixture.offer();
    let now = fixture.now();
    assert!(fixture.visibility.accept_pending(share_id, now));
    fixture.clock.advance(599);
    let now = fixture.now();
    assert_eq!(fixture.visibility.set_policy(true, now), None);
    fixture.clock.advance(10_000);
    let (state, status) = fixture.status();
    assert_eq!(state, VisibilityState::Open);
    assert_eq!(status.remaining_secs, None);
    assert!(!status.temporary);
    assert!(status.discoverable);
    assert_eq!(fixture.pending(), Some(ConsentOutcome::Accepted(share_id)));
}

#[test]
fn daemon_restart_restores_only_durable_policy() {
    let mut first = Fixture::new(300);
    first.open();
    drop(first);
    let mut restarted = Fixture::new(300);
    assert_eq!(restarted.status().0, VisibilityState::Closed);
    for _ in 0..2 {
        let mut durable = Fixture::new(300);
        let now = durable.now();
        let generation = durable.visibility.set_policy(true, now).expect("activation");
        durable.activate(generation);
        let (state, status) = durable.status();
        assert_eq!(state, VisibilityState::Open);
        assert_eq!(status.remaining_secs, None);
    }
}

#[test]
fn delayed_activation_starts_countdown_only_once_after_success() {
    let mut fixture = Fixture::new(300);
    let now = fixture.now();
    let generation = fixture.visibility.request_open(now).expect("requested");
    fixture.clock.advance(800);
    let now = fixture.now();
    assert_eq!(fixture.visibility.request_open(now), None);
    let (state, status) = fixture.status();
    assert_eq!(state, VisibilityState::Starting);
    assert_eq!(status.remaining_secs, None);
    let now = fixture.now();
    assert_eq!(fixture.visibility.generation_if_open(now), None);
    assert!(fixture.visibility.activation_requested(generation, now));
    fixture.activate(generation);
    let (state, status) = fixture.status();
    assert_eq!(state, VisibilityState::Open);
    assert_eq!(status.remaining_secs, Some(600));
    assert_eq!(status.available_media, vec![String::from("wifi_lan")]);
    fixture.clock.advance(600);
    assert_eq!(fixture.status().0, VisibilityState::Closed);
    assert_eq!(fixture.released(), 1);
}

#[test]
fn failed_partial_activation_cleans_leases_and_never_admits() {
    let mut fixture = Fixture::new(300);
    let now = fixture.now();
    let generation = fixture.visibility.request_open(now).expect("requested");
    fixture.visibility.complete_activation(generation, Err(String::from("advertisement registration failed")), now);
    let (state, status) = fixture.status();
    assert_eq!(state, VisibilityState::Unavailable);
    assert!(!status.requested);
    assert_eq!(status.remaining_secs, None);
    assert!(status.available_media.is_empty());
    assert!(status.error.is_some());
    assert_eq!(fixture.visibility.generation_if_open(now), None);
    assert!(fixture.visibility.propose(generation, SECOND, now).is_none());
    assert_eq!(fixture.released(), 0);
}

#[test]
fn stop_during_activation_releases_late_success_without_reopening() {
    let mut fixture = Fixture::new(300);
    let now = fixture.now();
    let generation = fixture.visibility.request_open(now).expect("requested");
    fixture.visibility.close(now);
    fixture.activate(generation);
    assert_eq!(fixture.released(), 1);
    let (state, status) = fixture.status();
    assert_eq!(state, VisibilityState::Closed);
    assert!(!status.requested);
    assert!(status.available_media.is_empty());
}

#[test]
fn queued_offer_is_not_admitted_after_suspend_crosses_expiry() {
    let mut fixture = Fixture::new(300);
    fixture.open();
    fixture.clock.advance(599);
    let now = fixture.now();
    let generation = fixture.visibility.generation_if_open(now).expect("open");
    let consent = fixture.visibility.propose(generation, 300 * SECOND, now).expect("offer before expiry");
    fixture.clock.advance(3600);
    let now = fixture.now();
    let refused = fixture.visibility.admit_offer(consent, now).expect_err("expired opening");
    let mut refused = refused;
    assert_eq!(refused.outcome(now), ConsentOutcome::TimedOut);
    assert_eq!(fixture.status().0, VisibilityState::Closed);
    assert_eq!(fixture.pending(), None);
    assert_eq!(fixture.released(), 1);
}

#[test]
fn second_offer_waits_for_the_admitted_one() {
    let mut fixture = Fixture::new(300);
    fixture.open();
    let first = fixture.offer();
    let now = fixture.now();
    let generation = fixture.visibility.generation_if_open(now).expect("open");
    let second = fixture.visibility.propose(generation, SECOND, now).expect("offer");
    let mut refused = fixture.visibility.admit_offer(second, now).expect_err("busy");
    assert_eq!(refused.outcome(now), ConsentOutcome::Rejected(0));
    assert!(fixture.visibility.reject_pending(first, now));
    let third = fixture.visibility.propose(generation, SECOND, now).expect("offer");
    assert!(fixture.visibility.admit_offer(third, now).is_ok());
}

#[test]
fn stale_generation_offers_are_refused() {
    let mut fixture = Fixture::new(300);
    fixture.open();
    let now = fixture.now();
    let old_generation = fixture.visibility.generation_if_open(now).expect("open");
    fixture.visibility.close(now);
    fixture.open();
    assert!(fixture.visibility.propose(old_generation, SECOND, now).is_none());
    let fresh = fixture.visibility.generation();
    assert!(fresh > old_generation);
}

#[test]
fn consent_deadline_is_captured_when_proposed() {
    let mut consent = PendingConsent::new(1, 0, 20 * SECOND);
    assert!(consent.admit_offer(SECOND));
    consent.bind(SECOND, 9);
    assert_eq!(consent.share_id(SECOND), Some(9));
    assert!(!consent.accept(2 * SECOND, 8));
    assert_eq!(consent.outcome(19 * SECOND), ConsentOutcome::Pending);
    assert_eq!(consent.outcome(20 * SECOND), ConsentOutcome::TimedOut);
    assert!(!consent.accept(20 * SECOND, 9));
    consent.cancel(21 * SECOND);
    assert_eq!(consent.outcome(21 * SECOND), ConsentOutcome::TimedOut);
}

#[test]
fn consent_timeout_is_terminal() {
    let mut consent = PendingConsent::new(1, 0, 0);
    let outcome = consent.outcome(0);
    assert_eq!(outcome, ConsentOutcome::TimedOut);
    assert_eq!(consent_wait_step(outcome, true), ConsentWait::Decided(ConsentOutcome::TimedOut));
}

#[test]
fn waiting_worker_withdraws_unpermitted_offers_and_polls_open_ones() {
    assert_eq!(consent_wait_step(ConsentOutcome::Offered, false), ConsentWait::WithdrawUnadmitted);
    assert_eq!(consent_wait_step(ConsentOutcome::Offered, true), ConsentWait::Poll);
    assert_eq!(consent_wait_step(ConsentOutcome::Pending, false), ConsentWait::Poll);
    assert_eq!(consent_wait_step(ConsentOutcome::Accepted(4), true), ConsentWait::Decided(ConsentOutcome::Accepted(4)));
    let mut consent = PendingConsent::new(1, 0, SECOND);
    consent.cancel_unadmitted(0);
    assert_eq!(consent.outcome(0), ConsentOutcome::Cancelled);
}
