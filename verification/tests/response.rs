use omarchy_quickshare::observations::Phase;
use omarchy_quickshare::response::{
    action_text, health_text, status_text, submitted_text, ActiveShareLine, ControlResponse, ResponseError,
};

#[test]
fn actions_report_applied_or_cancelled() {
    assert_eq!(action_text(ControlResponse::Applied).expect("applied"), "Action applied.\n");
    assert_eq!(action_text(ControlResponse::Cancelled).expect("cancelled"), "Share cancelled.\n");
    assert_eq!(action_text(ControlResponse::NotFound), Err(ResponseError::NotAvailable));
    assert_eq!(action_text(ControlResponse::Ready), Err(ResponseError::Unsupported));
    assert!(ResponseError::NotAvailable.message().contains("status --json"));
}

#[test]
fn submits_report_the_queued_share() {
    assert_eq!(submitted_text(ControlResponse::Queued { share_id: 42 }).expect("queued"), "Share 42 queued.\n");
    assert_eq!(submitted_text(ControlResponse::Applied), Err(ResponseError::Unsupported));
    assert_eq!(health_text(ControlResponse::Ready).expect("ready"), "available\n");
    assert_eq!(health_text(ControlResponse::Snapshot), Err(ResponseError::NotReady));
}

#[test]
fn status_lists_observations_and_terminal_guidance() {
    let idle = status_text("/srv/in", "Idle", "Closed", None, Some("pixel-8"), None);
    assert_eq!(idle, "receive_directory=/srv/in\ndiscovery=Idle\nvisibility=Closed\npinned_peer=pixel-8\n");
    let active = ActiveShareLine {
        share_id: 3,
        direction: String::from("outbound"),
        phase_name: String::from("Rejected"),
        phase: Phase::Rejected,
        transferred_bytes: 0,
        total_bytes: 4,
        verification_code: Some(String::from("1234")),
    };
    let text = status_text("/srv/in", "Searching", "Open", Some("galaxy"), Some("pixel-8"), Some(&active));
    assert_eq!(
        text,
        "receive_directory=/srv/in\ndiscovery=Searching\nvisibility=Open\npinned_peer=galaxy\n\
         share_id=3\ndirection=outbound\nphase=Rejected\ntransferred_bytes=0\ntotal_bytes=4\n\
         verification_code=1234\nterminal_reason=share rejected\n\
         recovery_guidance=Choose another peer or ask the receiver to accept.\n"
    );
    assert!(status_text("/d", "Idle", "Closed", None, None, None).ends_with("pinned_peer=\n"));
}
