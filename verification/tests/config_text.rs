use relay_launcher::config::RelayConfig;
use relay_launcher::config::config_file_text;
use relay_launcher::status::RelayStatus;

#[test]
fn default_config_values() {
    let c = RelayConfig::default();
    assert_eq!(c.port, 8080);
    assert_eq!(c.data_directory, "./relay_data");
    assert_eq!(c.max_conn, 128);
    assert_eq!(c.relay_name, "Privacy Lion Relay");
    assert_eq!(
        c.relay_description,
        "A Privacy Lion relay for decentralized data sharing."
    );
}

#[test]
fn default_status_values() {
    let s = RelayStatus::default();
    assert!(!s.running);
    assert_eq!(s.port, 8080);
    assert_eq!(s.message, "Stopped");
    assert!(s.data_dir.is_none());
    assert!(s.config_file.is_none());
}

#[test]
fn config_text_is_deterministic() {
    let c = RelayConfig::default();
    let a = config_file_text(&c, "/home/user/.local/share/app/relay_data");
    let b = config_file_text(&c, "/home/user/.local/share/app/relay_data");
    assert_eq!(a, b);
    assert_eq!(a.as_bytes(), b.as_bytes());
}

#[test]
fn config_text_exact_bytes() {
    let c = RelayConfig {
        port: 7000,
        data_directory: String::from("ignored-here"),
        max_conn: 32,
        relay_name: String::from("My Relay"),
        relay_description: String::from("Just a relay."),
    };
    let text = config_file_text(&c, "/srv/relay_data");
    let expected = format!(
        r#"# Privacy Lion Relay Configuration
[info]
relay_url = "ws://localhost:{}/"
name = "{}"
description = "{}"

[database]
data_directory = "{}"

[network]
port = {}
address = "0.0.0.0"
remote_ip_header = "x-forwarded-for"

[limits]
max_conn = {}
max_subs_per_client = 20
max_filters_per_sub = 10
max_limit = 5000
max_event_bytes = 65536
max_ws_message_bytes = 65536
max_ws_frame_bytes = 65536

[retention]
# Keep events for 24 hours by default (86400 seconds)
# Set to 0 for unlimited retention
max_seconds = 86400

[logging]
# Logging will be handled by Privacy Lion
"#,
        7000, "My Relay", "Just a relay.", "/srv/relay_data", 7000, 32
    );
    assert_eq!(text, expected);
}

#[test]
fn config_text_mentions_every_setting() {
    let c = RelayConfig::default();
    let text = config_file_text(&c, "/srv/relay_data");
    assert!(text.contains("ws://localhost:8080/"));
    assert!(text.contains("name = \"Privacy Lion Relay\""));
    assert!(text.contains("data_directory = \"/srv/relay_data\""));
    assert!(text.contains("port = 8080"));
    assert!(text.contains("max_conn = 128"));
}
