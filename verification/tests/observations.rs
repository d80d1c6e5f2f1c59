use omarchy_quickshare::media::{
    attempt_order, endpoint_name, medium_name, normalized_endpoint_name, rank, Medium, PeerRoutes, Route,
    TransferCancellation,
};
use omarchy_quickshare::observations::{
    completion_notice, io_error_kind, recovery_guidance, remaining_seconds, storage_reason, summary,
    terminal_guidance, IoErrorKind, NotifyKind, Phase, StorageFailure,
};

const SECOND: u128 = 1_000_000_000;

#[test]
fn summaries_do_not_leak_share_details() {
    for kind in [NotifyKind::Sent, NotifyKind::Received, NotifyKind::Error] {
        let text = summary(kind);
        assert!(!text.contains("peer"));
        assert!(!text.contains("file"));
        assert!(!text.contains("http"));
    }
}

#[test]
fn eta_uses_observed_throughput() {
    assert_eq!(remaining_seconds(50, 100, 1000 * 1_000_000), Some(1));
    assert_eq!(remaining_seconds(0, 100, SECOND), None);
}

#[test]
fn eta_counts_whole_seconds_and_saturates() {
    assert_eq!(remaining_seconds(10, 100, SECOND / 2), None);
    assert_eq!(remaining_seconds(25, 100, 4 * SECOND), Some(12));
    assert_eq!(remaining_seconds(101, 100, SECOND), None);
    assert_eq!(remaining_seconds(1, u64::MAX, 2 * SECOND), Some(u64::MAX));
}

#[test]
fn storage_reasons_are_stable_snake_case() {
    assert_eq!(storage_reason(StorageFailure::Collision), "collision");
    assert_eq!(storage_reason(StorageFailure::Quota), "quota");
    assert_eq!(storage_reason(StorageFailure::Mutation), "mutation");
    assert_eq!(storage_reason(StorageFailure::SizeMismatch), "size_mismatch");
    assert_eq!(storage_reason(StorageFailure::Interrupted), "interrupted");
    assert_eq!(medium_name(Medium::WifiLan), "wifi_lan");
}

#[test]
fn recovery_guidance_avoids_peer_and_file_names() {
    for reason in ["timed_out", "disconnected", "quota", "collision", "failed"] {
        let guidance = recovery_guidance(reason);
        assert!(!guidance.contains('/'));
        assert!(!guidance.to_ascii_lowercase().contains("pixel"));
    }
}

#[test]
fn recovery_guidance_names_each_reason() {
    assert_eq!(recovery_guidance("quota"), "Free space in the receive directory and retry.");
    assert_eq!(recovery_guidance("timed_out"), "Retry while both devices stay nearby.");
    assert_eq!(recovery_guidance("anything else"), "Retry the share. Confirm the peer is nearby.");
}

#[test]
fn io_error_kinds_have_public_names() {
    assert_eq!(io_error_kind(IoErrorKind::AddrInUse), "address_in_use");
    assert_eq!(io_error_kind(IoErrorKind::UnexpectedEof), "unexpected_eof");
    assert_eq!(io_error_kind(IoErrorKind::Other), "other");
}

#[test]
fn terminal_phases_carry_guidance() {
    assert_eq!(terminal_guidance(Phase::Rejected), Some(("share rejected", "Choose another peer or ask the receiver to accept.")));
    assert_eq!(terminal_guidance(Phase::Transferring), None);
    assert_eq!(terminal_guidance(Phase::Cancelled).map(|g| g.0), Some("share cancelled"));
}

#[test]
fn completion_notice_fires_only_on_successful_completion() {
    assert!(completion_notice(true, Phase::Completed));
    assert!(!completion_notice(false, Phase::Completed));
    assert!(!completion_notice(true, Phase::Cancelled));
    assert!(!completion_notice(true, Phase::Failed));
}

#[test]
fn connection_endpoint_name_uses_trimmed_hostname_or_fallback() {
    assert_eq!(normalized_endpoint_name(Some("omarchy-macbook\n")), "omarchy-macbook");
    assert_eq!(normalized_endpoint_name(Some(" \n")), "Omarchy");
    assert_eq!(normalized_endpoint_name(None), "Omarchy");
}

#[test]
fn tests_endpoint_name_uses_trimmed_hostname_or_fallback() {
    assert_eq!(normalized_endpoint_name(Some("omarchy-macbook\n")), "omarchy-macbook");
    assert_eq!(normalized_endpoint_name(Some(" \n")), "Omarchy");
    assert_eq!(normalized_endpoint_name(None), "Omarchy");
}

#[test]
fn overlong_hostname_falls_back() {
    let long = "h".repeat(256);
    assert_eq!(normalized_endpoint_name(Some(&long)), "Omarchy");
    let fits = "h".repeat(255);
    assert_eq!(normalized_endpoint_name(Some(&fits)), fits);
}

#[test]
fn media_are_tried_lan_first_and_ranked_by_bandwidth() {
    assert_eq!(attempt_order()[0], Medium::WifiLan);
    assert_eq!(attempt_order()[4], Medium::Bluetooth);
    assert_eq!(medium_name(Medium::WifiDirect), "wifi_direct");
    assert!(rank(Medium::WifiLan) > rank(Medium::Ble));
    assert!(rank(Medium::Bluetooth) > rank(Medium::Ble));
}

#[test]
fn cancellation_marks_one_share_at_a_time() {
    let mut cancellation = TransferCancellation::new();
    cancellation.cancel(4);
    assert!(cancellation.is_cancelled(4));
    cancellation.finish(5);
    assert!(cancellation.is_cancelled(4));
    cancellation.finish(4);
    assert!(!cancellation.is_cancelled(4));
}

#[test]
fn configured_device_name_wins_over_hostname() {
    assert_eq!(endpoint_name(Some(String::from("Desk")), Some("host\n")), "Desk");
    assert_eq!(endpoint_name(None, Some("host\n")), "host");
    assert_eq!(endpoint_name(None, None), "Omarchy");
}

#[test]
fn peer_routes_stay_in_attempt_order_without_repeats() {
    let mut routes = PeerRoutes::new();
    let classic = Route { medium: Medium::Bluetooth, key: 1 };
    let ble = Route { medium: Medium::Ble, key: 2 };
    let lan = Route { medium: Medium::WifiLan, key: 3 };
    let lan_again = Route { medium: Medium::WifiLan, key: 4 };
    routes.remember(classic);
    routes.remember(ble);
    routes.remember(lan);
    routes.remember(ble);
    routes.remember(lan_again);
    assert_eq!(routes.routes(), &[lan, lan_again, ble, classic]);
}
