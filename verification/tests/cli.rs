use omarchy_quickshare::cli::{run, CliError, Invocation, LogLevel};
use omarchy_quickshare::request::{ArgumentError, ControlRequest, NumberField};

fn args(words: &[&str]) -> Vec<String> {
    words.iter().map(|w| String::from(*w)).collect()
}

fn printed(result: Result<Invocation, CliError>) -> String {
    match result {
        Ok(Invocation::Print(text)) => text,
        other => panic!("expected text to print, got {other:?}"),
    }
}

#[test]
fn help_does_not_become_submit_text() {
    let result = run(&[String::from("--help")], false);
    assert!(result.is_ok(), "help failed: {result:?}");
    let text = printed(result);
    assert!(text.contains("Usage:"));
    assert!(text.contains("send"));
}

#[test]
fn version_does_not_contact_the_daemon() {
    let result = run(&[String::from("--version")], false);
    assert!(result.is_ok(), "version failed: {result:?}");
    let text = printed(result);
    assert!(text.contains("0.1.0"));
}

#[test]
fn missing_subcommand_does_not_submit_text() {
    let result = run(&[], false);
    assert!(result.is_err(), "empty argv submitted content");
}

#[test]
fn unknown_option_does_not_submit_text() {
    let result = run(&[String::from("--nope")], false);
    assert!(result.is_err(), "unknown option submitted content");
}

#[test]
fn short_help_and_version_flags_print_text() {
    assert!(printed(run(&args(&["-h"]), false)).contains("Usage:"));
    assert_eq!(printed(run(&args(&["-V"]), false)), "omarchy-quickshare 0.1.0\n");
    assert!(printed(run(&args(&["help"]), false)).contains("Commands:"));
}

#[test]
fn help_for_a_command_names_it() {
    let text = printed(run(&args(&["help", "send"]), false));
    assert!(text.starts_with("Queue text, a URL, or a local file or folder for sharing\n"));
    assert!(text.contains("Usage: omarchy-quickshare send [OPTIONS] <CONTENT>\n"));
    let text = printed(run(&args(&["share", "select", "--help"]), false));
    assert!(text.contains("Usage: omarchy-quickshare share select <SHARE_ID> <PEER_ID>\n"));
    let text = printed(run(&args(&["health", "-h"]), false));
    assert_eq!(
        text,
        "Confirm that the local endpoint is running\n\nUsage: omarchy-quickshare health\n\nOptions:\n  -h, --help  Print help\n"
    );
    assert!(matches!(run(&args(&["help", "bogus"]), false), Err(CliError::InvalidSubcommand(w)) if w == "bogus"));
}

#[test]
fn single_bare_word_is_sent_as_content() {
    match run(&args(&["hello from Omarchy"]), false) {
        Ok(Invocation::Submit { content, peer }) => {
            assert_eq!(content, "hello from Omarchy");
            assert_eq!(peer, None);
        },
        other => panic!("unexpected {other:?}"),
    }
    assert!(matches!(run(&args(&["hello", "world"]), false), Err(CliError::InvalidSubcommand(w)) if w == "hello"));
}

#[test]
fn send_keeps_content_and_peer_together() {
    for words in [
        &["send", "--peer", "pixel-8", "current clipboard"][..],
        &["send", "current clipboard", "--peer", "pixel-8"][..],
        &["send", "--peer=pixel-8", "current clipboard"][..],
    ] {
        match run(&args(words), false) {
            Ok(Invocation::Submit { content, peer }) => {
                assert_eq!(content, "current clipboard");
                assert_eq!(peer.as_deref(), Some("pixel-8"));
            },
            other => panic!("unexpected {other:?}"),
        }
    }
    match run(&args(&["send", "--", "--peer"]), false) {
        Ok(Invocation::Submit { content, peer }) => {
            assert_eq!(content, "--peer");
            assert_eq!(peer, None);
        },
        other => panic!("unexpected {other:?}"),
    }
}

#[test]
fn send_argument_errors_are_reported() {
    assert!(matches!(run(&args(&["send"]), false), Err(CliError::MissingArgument)));
    assert!(matches!(run(&args(&["send", "a", "b"]), false), Err(CliError::UnexpectedArgument(w)) if w == "b"));
    assert!(matches!(run(&args(&["send", "a", "--peer"]), false), Err(CliError::MissingValue(w)) if w == "--peer"));
    assert!(matches!(
        run(&args(&["send", "--peer", "x", "--peer", "y", "a"]), false),
        Err(CliError::DuplicateOption(w)) if w == "--peer"
    ));
    assert!(matches!(run(&args(&["send", "-x", "a"]), false), Err(CliError::UnknownArgument(w)) if w == "-x"));
}

#[test]
fn status_health_and_protocol_version() {
    assert!(matches!(run(&args(&["status"]), false), Ok(Invocation::Status { json: false })));
    assert!(matches!(run(&args(&["status", "--json"]), false), Ok(Invocation::Status { json: true })));
    assert!(matches!(run(&args(&["status", "--json", "--json"]), false), Err(CliError::DuplicateOption(_))));
    assert!(matches!(run(&args(&["health"]), false), Ok(Invocation::Health)));
    assert_eq!(printed(run(&args(&["protocol-version"]), false)), "3\n");
}

#[test]
fn discovery_and_visibility_actions() {
    assert!(matches!(run(&args(&["discover", "start"]), false), Ok(Invocation::Control(ControlRequest::Discover))));
    assert!(matches!(run(&args(&["discover", "stop"]), false), Ok(Invocation::Control(ControlRequest::StopDiscovery))));
    assert!(matches!(run(&args(&["discover", "later"]), false), Err(CliError::InvalidValue(w)) if w == "later"));
    assert!(matches!(run(&args(&["visibility", "open"]), false), Ok(Invocation::Control(ControlRequest::OpenVisibility))));
    assert!(matches!(run(&args(&["visibility", "close"]), false), Ok(Invocation::Control(ControlRequest::CloseVisibility))));
    assert!(matches!(run(&args(&["visibility"]), false), Err(CliError::MissingArgument)));
}

#[test]
fn peer_and_share_commands_build_requests() {
    assert!(matches!(
        run(&args(&["peer", "pin", "galaxy-tab"]), false),
        Ok(Invocation::Control(ControlRequest::PinPeer { peer_id })) if peer_id == "galaxy-tab"
    ));
    assert!(matches!(run(&args(&["peer", "unpin"]), false), Ok(Invocation::Control(ControlRequest::UnpinPeer))));
    assert!(matches!(run(&args(&["peer"]), false), Err(CliError::MissingSubcommand)));
    assert!(matches!(
        run(&args(&["share", "select", "1", "pixel-8"]), false),
        Ok(Invocation::Control(ControlRequest::SelectPeer { share_id: 1, peer_id })) if peer_id == "pixel-8"
    ));
    assert!(matches!(run(&args(&["share", "accept", "7"]), false), Ok(Invocation::Control(ControlRequest::Accept { share_id: 7 }))));
    assert!(matches!(run(&args(&["share", "reject", "8"]), false), Ok(Invocation::Control(ControlRequest::Reject { share_id: 8 }))));
    assert!(matches!(run(&args(&["share", "cancel", "9"]), false), Ok(Invocation::Control(ControlRequest::Cancel { share_id: 9 }))));
    assert!(matches!(run(&args(&["share", "dismiss", "10"]), false), Ok(Invocation::Control(ControlRequest::Dismiss { share_id: 10 }))));
    assert!(matches!(run(&args(&["share", "accept", "-1"]), false), Err(CliError::UnknownArgument(_))));
    assert!(matches!(run(&args(&["share", "accept", "one"]), false), Err(CliError::InvalidValue(w)) if w == "one"));
    assert!(matches!(run(&args(&["share", "forward", "1"]), false), Err(CliError::InvalidSubcommand(w)) if w == "forward"));
}

#[test]
fn config_and_daemon_commands() {
    assert!(matches!(run(&args(&["config", "show"]), false), Ok(Invocation::ShowConfig)));
    assert!(matches!(
        run(&args(&["config", "set", "discoverable", "true"]), false),
        Ok(Invocation::SetConfig { key, value }) if key == "discoverable" && value == "true"
    ));
    assert!(matches!(
        run(&args(&["daemon"]), false),
        Ok(Invocation::StartDaemon { simulate: false, log_level: LogLevel::Info })
    ));
    assert!(matches!(
        run(&args(&["daemon", "--simulate", "--log-level", "debug"]), false),
        Ok(Invocation::StartDaemon { simulate: true, log_level: LogLevel::Debug })
    ));
    assert!(matches!(run(&args(&["daemon", "--log-level", "loud"]), false), Err(CliError::InvalidValue(w)) if w == "loud"));
    assert_eq!(LogLevel::Trace.as_str(), "trace");
    assert_eq!(LogLevel::from_name("warn"), Some(LogLevel::Warn));
}

#[test]
fn simulation_commands_need_opt_in() {
    assert!(matches!(run(&args(&["simulate", "fail", "3"]), false), Err(CliError::SimulationUnavailable)));
    assert!(matches!(
        run(&args(&["simulate", "fail", "3"]), true),
        Ok(Invocation::Control(ControlRequest::SimulateFail { share_id: 3 }))
    ));
    assert!(matches!(
        run(&args(&["simulate", "progress", "2", "4096"]), true),
        Ok(Invocation::Control(ControlRequest::SimulateProgress { share_id: 2, transferred_bytes: 4096 }))
    ));
    assert!(matches!(
        run(&args(&["simulate", "incoming-file", "note.txt", "4"]), true),
        Ok(Invocation::Control(ControlRequest::SimulateIncomingFile { name, size_bytes: 4 })) if name == "note.txt"
    ));
    assert!(matches!(run(&args(&["simulate", "progress", "x", "1"]), false), Err(CliError::InvalidValue(w)) if w == "x"));
}

#[test]
fn flag_form_commands_become_requests() {
    assert!(matches!(run(&args(&["--cancel", "1"]), false), Ok(Invocation::Control(ControlRequest::Cancel { share_id: 1 }))));
    assert!(matches!(
        run(&args(&["--send-to", "2", "pixel-8"]), false),
        Ok(Invocation::Control(ControlRequest::SelectPeer { share_id: 2, peer_id })) if peer_id == "pixel-8"
    ));
    assert!(matches!(
        run(&args(&["--cancel", "x"]), false),
        Err(CliError::FlagCommand(ArgumentError::InvalidNumber(NumberField::ShareId)))
    ));
}

#[test]
fn simulation_commands_are_unavailable_without_explicit_opt_in() {
    assert!(matches!(
        run(&args(&["--simulate-peer-seen", "watch-7", "Watch"]), false),
        Err(CliError::SimulationUnavailable)
    ));
    assert!(matches!(
        run(&args(&["simulate", "peer-seen", "watch-7", "Watch"]), false),
        Err(CliError::SimulationUnavailable)
    ));
    assert!(matches!(
        run(&args(&["--simulate-peer-seen", "watch-7", "Watch"]), true),
        Ok(Invocation::Control(ControlRequest::SimulatePeerSeen { peer_id, name })) if peer_id == "watch-7" && name == "Watch"
    ));
    assert!(matches!(
        run(&args(&["--simulate-nothing"]), true),
        Err(CliError::FlagCommand(ArgumentError::UnrecognizedSimulation))
    ));
}
