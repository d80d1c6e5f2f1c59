use omarchy_quickshare::observations::{recovery_guidance, Phase};
use omarchy_quickshare::timeouts::OperationTimeouts;

const SECOND: u128 = 1_000_000_000;

#[test]
fn transfer_timeout_records_reason_and_guidance() {
    let mut timeouts = OperationTimeouts::new();
    let active = Some((1_u64, Phase::Transferring));
    timeouts.capture(false, active, 15, 1, 0);
    assert_eq!(timeouts.check_transfer(active, 5 * SECOND), Some(1));
    assert_eq!(recovery_guidance("timed_out"), "Retry while both devices stay nearby.");
}

#[test]
fn transfer_deadline_counts_from_the_start_of_transfer() {
    let mut timeouts = OperationTimeouts::new();
    timeouts.capture(false, Some((3, Phase::AwaitingPeerConsent)), 15, 10, 0);
    assert_eq!(timeouts.check_transfer(Some((3, Phase::AwaitingPeerConsent)), 100 * SECOND), None);
    timeouts.capture(false, Some((3, Phase::Transferring)), 15, 10, 100 * SECOND);
    assert_eq!(timeouts.check_transfer(Some((3, Phase::Transferring)), 109 * SECOND), None);
    assert_eq!(timeouts.check_transfer(Some((3, Phase::Transferring)), 110 * SECOND), Some(3));
}

#[test]
fn admitted_share_keeps_its_captured_timeout() {
    let mut timeouts = OperationTimeouts::new();
    timeouts.capture(false, Some((4, Phase::Transferring)), 15, 10, 0);
    timeouts.capture(false, Some((4, Phase::Transferring)), 15, 1000, SECOND);
    assert_eq!(timeouts.check_transfer(Some((4, Phase::Transferring)), 10 * SECOND), Some(4));
    timeouts.capture(false, Some((5, Phase::Transferring)), 15, 1000, 20 * SECOND);
    assert_eq!(timeouts.check_transfer(Some((5, Phase::Transferring)), 30 * SECOND), None);
}

#[test]
fn search_keeps_its_window_and_stops_once() {
    let mut timeouts = OperationTimeouts::new();
    timeouts.capture(true, None, 15, 120, 0);
    timeouts.capture(true, None, 1, 120, SECOND);
    assert!(!timeouts.check_discovery(true, 14 * SECOND));
    assert!(timeouts.check_discovery(true, 15 * SECOND));
    timeouts.capture(false, None, 15, 120, 16 * SECOND);
    assert!(!timeouts.check_discovery(false, 100 * SECOND));
}

#[test]
fn local_accept_starts_the_transfer_clock() {
    let mut timeouts = OperationTimeouts::new();
    timeouts.capture(false, Some((6, Phase::AwaitingLocalConsent)), 15, 10, 0);
    timeouts.start_transfer(2 * SECOND);
    assert_eq!(timeouts.check_transfer(Some((6, Phase::Transferring)), 11 * SECOND), None);
    assert_eq!(timeouts.check_transfer(Some((6, Phase::Transferring)), 12 * SECOND), Some(6));
}
