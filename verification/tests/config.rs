use omarchy_quickshare::config::{
    default_receive_directory, expand_user, join_path, patch_value, Config, ConfigError, TomlItem,
};

const HOME: Option<&str> = Some("/home/u");

#[test]
fn missing_config_uses_documented_defaults() {
    let config = Config::load(None, HOME, None).expect("defaults");
    assert_eq!(config.consent_timeout_secs, 300);
    assert_eq!(config.discovery_timeout_secs, 15);
    assert_eq!(config.transfer_timeout_secs, 120);
    assert!(!config.discoverable);
    assert!(!config.read_clipboard_on_select);
    assert_eq!(config.device_name, None);
    assert_eq!(config.pinned_peer_id, None);
    assert_eq!(config.receive_directory, "/home/u/Downloads/omarchy-quickshare");
}

#[test]
fn missing_config_uses_xdg_download_dir_when_set() {
    let config = Config::load(None, HOME, Some("/data/dl")).expect("defaults");
    assert_eq!(config.receive_directory, "/data/dl/omarchy-quickshare");
    let config = Config::load(None, HOME, Some("")).expect("defaults");
    assert_eq!(config.receive_directory, "/home/u/Downloads/omarchy-quickshare");
}

#[test]
fn documented_keys_are_read() {
    let body = "discoverable = true\nconsent_timeout_secs = 20\ndevice_name = \"  Desk  \"\n\
                receive_directory = \"~/Inbox\"\npinned_peer_id = \" \"\n";
    let config = Config::load(Some(body), HOME, None).expect("valid");
    assert!(config.discoverable);
    assert_eq!(config.consent_timeout_secs, 20);
    assert_eq!(config.device_name.as_deref(), Some("Desk"));
    assert_eq!(config.receive_directory, "/home/u/Inbox");
    assert_eq!(config.pinned_peer_id, None);
}

#[test]
fn older_visibility_timeout_applies_only_without_consent_timeout() {
    let config = Config::load(Some("visibility_timeout_secs = 45\n"), HOME, None).expect("valid");
    assert_eq!(config.consent_timeout_secs, 45);
    let config = Config::load(Some("visibility_timeout_secs = 45\nconsent_timeout_secs = 9\n"), HOME, None).expect("valid");
    assert_eq!(config.consent_timeout_secs, 9);
    let config = Config::load(Some("consent_timeout_secs = 9\nvisibility_timeout_secs = 45\n"), HOME, None).expect("valid");
    assert_eq!(config.consent_timeout_secs, 9);
}

#[test]
fn strict_documents_reject_bad_values() {
    assert!(matches!(Config::load(Some("nope = 1\n"), HOME, None), Err(ConfigError::UnknownKey(k)) if k == "nope"));
    assert!(matches!(Config::load(Some("discoverable = \"yes\"\n"), HOME, None), Err(ConfigError::InvalidValue(k)) if k == "discoverable"));
    assert!(matches!(Config::load(Some("transfer_timeout_secs = -1\n"), HOME, None), Err(ConfigError::InvalidValue(_))));
    assert!(matches!(Config::load(Some("receive_directory = \"\"\n"), HOME, None), Err(ConfigError::EmptyReceiveDirectory)));
    let long = format!("device_name = \"{}\"\n", "d".repeat(256));
    assert!(matches!(Config::load(Some(&long), HOME, None), Err(ConfigError::DeviceNameTooLong)));
    assert!(matches!(Config::load(Some("= broken"), HOME, None), Err(ConfigError::InvalidDocument(_))));
}

#[test]
fn patch_values_follow_the_key_type() {
    assert!(matches!(patch_value("discoverable", "true", HOME), Ok(TomlItem::Bool(true))));
    assert!(matches!(patch_value("discoverable", "yes", HOME), Err(ConfigError::InvalidBool)));
    assert!(matches!(patch_value("transfer_timeout_secs", "90", HOME), Ok(TomlItem::Int(90))));
    assert!(matches!(patch_value("transfer_timeout_secs", "-5", HOME), Err(ConfigError::InvalidTimeout(v)) if v == "-5"));
    assert!(matches!(
        patch_value("consent_timeout_secs", "18446744073709551615", HOME),
        Err(ConfigError::TimeoutOutOfRange)
    ));
    assert!(matches!(patch_value("pinned_peer_id", "  ", HOME), Ok(TomlItem::Str(s)) if s.is_empty()));
    assert!(matches!(patch_value("receive_directory", "~/x", HOME), Ok(TomlItem::Str(s)) if s == "/home/u/x"));
    assert!(matches!(patch_value("visibility_timeout_secs", "5", HOME), Err(ConfigError::UnknownKey(_))));
}

#[test]
fn config_set_persists_and_rejects_unknown_keys() {
    let (config, text) =
        Config::patch_document(None, "discoverable", "true", HOME, None).expect("patched");
    assert!(config.discoverable);
    assert_eq!(config.consent_timeout_secs, 300);
    let reread = Config::load(Some(&text), HOME, None).expect("valid text");
    assert!(reread.discoverable);
    assert_eq!(reread.consent_timeout_secs, 300);
    assert!(matches!(
        Config::patch_document(Some(&text), "colour", "blue", HOME, None),
        Err(ConfigError::UnknownKey(k)) if k == "colour"
    ));
}

#[test]
fn patch_keeps_comments_and_order() {
    let body = "# mine\ntransfer_timeout_secs = 60 # slow link\nvisibility_timeout_secs = 40\n";
    let (config, text) =
        Config::patch_document(Some(body), "transfer_timeout_secs", "90", HOME, None).expect("patched");
    assert_eq!(config.transfer_timeout_secs, 90);
    assert_eq!(config.consent_timeout_secs, 40);
    assert!(text.contains("# mine"));
    assert!(text.contains("transfer_timeout_secs = 90 # slow link"));
    assert!(text.contains("consent_timeout_secs = 40"));
}

#[test]
fn to_toml_writes_every_effective_setting() {
    let mut config = Config::with_receive_directory(String::from("/srv/in"));
    config.device_name = Some(String::from("Desk"));
    let text = config.to_toml();
    assert_eq!(
        text,
        "visibility_timeout_secs = 300\ndiscoverable = false\nread_clipboard_on_select = false\n\
         discovery_timeout_secs = 15\nreceive_directory = \"/srv/in\"\ntransfer_timeout_secs = 120\n\
         device_name = \"Desk\"\n"
    );
    let reread = Config::load(Some(&text), HOME, None).expect("round trip");
    assert_eq!(reread.consent_timeout_secs, 300);
    assert_eq!(reread.device_name.as_deref(), Some("Desk"));
    assert_eq!(reread.receive_directory, "/srv/in");
}

#[test]
fn paths_join_and_expand_like_pathbuf() {
    assert_eq!(join_path("/home/u", "x"), "/home/u/x");
    assert_eq!(join_path("/home/u/", "x"), "/home/u/x");
    assert_eq!(join_path("/home/u", "/abs"), "/abs");
    assert_eq!(expand_user("~", HOME), "/home/u");
    assert_eq!(expand_user("~/a", HOME), "/home/u/a");
    assert_eq!(expand_user("~a", HOME), "~a");
    assert_eq!(expand_user("~/a", None), "~/a");
    assert_eq!(default_receive_directory(None, None), "~/Downloads/omarchy-quickshare");
}

#[test]
fn documented_defaults_render_the_visibility_timeout() {
    let config = Config::load(None, HOME, None).expect("defaults");
    let body = config.to_toml();
    assert!(body.contains("receive_directory = \"/home/u/Downloads/omarchy-quickshare\""));
    assert!(body.contains("discovery_timeout_secs = 15"));
    assert!(body.contains("visibility_timeout_secs = 300"));
    assert!(body.contains("transfer_timeout_secs = 120"));
}

#[test]
fn a_patched_file_loads_as_the_patched_settings() {
    let body = "# mine\ndevice_name = \"Desk\" # shown to peers\n";
    let (config, text) =
        Config::patch_document(Some(body), "receive_directory", "~/inbox", HOME, None).expect("patched");
    assert_eq!(config.receive_directory, "/home/u/inbox");
    assert!(text.contains("device_name = \"Desk\" # shown to peers"));
    let reread = Config::load(Some(&text), HOME, None).expect("valid text");
    assert_eq!(reread.receive_directory, config.receive_directory);
    assert_eq!(reread.device_name, config.device_name);
    assert_eq!(reread.consent_timeout_secs, config.consent_timeout_secs);
    assert!(matches!(
        Config::load(Some("= broken"), HOME, None),
        Err(ConfigError::InvalidDocument(message)) if !message.is_empty()
    ));
}
