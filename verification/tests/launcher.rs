use relay_launcher::config::RelayConfig;
use relay_launcher::launcher::Launcher;
use relay_launcher::probe::ProbeOutcome;

fn custom_config() -> RelayConfig {
    RelayConfig {
        port: 7777,
        data_directory: String::from("/var/lib/relay"),
        max_conn: 64,
        relay_name: String::from("Test Relay"),
        relay_description: String::from("A relay under test."),
    }
}

#[test]
fn stop_when_never_started_reports_already_stopped() {
    let mut l = Launcher::new(RelayConfig::default());
    let taken = l.stop_take();
    assert!(taken.is_none());
    let r = l.stop_status(taken.is_some(), None);
    let st = r.expect("stopping a stopped relay must not error");
    assert!(!st.running);
    assert_eq!(st.message, "Already stopped");
    assert_eq!(st.port, 8080);
    assert!(st.data_dir.is_none());
    assert!(st.config_file.is_none());
}

#[test]
fn second_start_reports_already_running() {
    let mut l = Launcher::new(RelayConfig::default());
    assert!(l.start_check().is_none());
    l.record_spawn(4242);
    let first = l.start_conclude(
        ProbeOutcome::Responding,
        String::from("/data"),
        String::from("/data/config.toml"),
    );
    let st = first.expect("first start must succeed");
    assert!(st.running);
    assert_eq!(st.message, "Running successfully");
    let second = l.start_check();
    let st2 = second.expect("second start must short-circuit");
    assert!(st2.running);
    assert_eq!(st2.message, "Already running");
    assert_eq!(st2.port, 8080);
    assert_eq!(st2.data_dir.as_deref(), Some("./relay_data"));
}

#[test]
fn status_after_successful_start_is_running_on_the_configured_port() {
    let mut l = Launcher::new(custom_config());
    assert!(l.start_check().is_none());
    l.record_spawn(1);
    let st = l
        .start_conclude(
            ProbeOutcome::Responding,
            String::from("/data"),
            String::from("/data/config.toml"),
        )
        .expect("start must succeed");
    assert!(st.running);
    assert_eq!(st.port, 7777);
    assert_eq!(st.data_dir.as_deref(), Some("/data"));
    assert_eq!(st.config_file.as_deref(), Some("/data/config.toml"));
    assert!(l.status_probe_needed());
    let st2 = l.report_status(Some(ProbeOutcome::Responding));
    assert!(st2.running);
    assert_eq!(st2.port, 7777);
    assert_eq!(st2.message, "Running");
    assert_eq!(st2.data_dir.as_deref(), Some("/var/lib/relay"));
}

#[test]
fn failed_probe_after_spawn_clears_the_handle() {
    let mut l = Launcher::new(RelayConfig::default());
    l.record_spawn(4242);
    let r = l.start_conclude(
        ProbeOutcome::NotResponding,
        String::from("/data"),
        String::from("/data/config.toml"),
    );
    assert_eq!(
        r.unwrap_err(),
        "Relay failed to start properly - check if port is available"
    );
    assert!(!l.status_probe_needed());
    let st = l.report_status(None);
    assert!(!st.running);
    assert_eq!(st.message, "Stopped");
}

#[test]
fn probe_error_during_start_reports_the_transport_message() {
    let mut l = Launcher::new(RelayConfig::default());
    l.record_spawn(4242);
    let r = l.start_conclude(
        ProbeOutcome::Failed(String::from("connection timed out")),
        String::from("/data"),
        String::from("/data/config.toml"),
    );
    assert_eq!(r.unwrap_err(), "Failed to verify relay: connection timed out");
    assert!(!l.status_probe_needed());
}

#[test]
fn update_config_then_get_config_returns_what_was_written() {
    let mut l = Launcher::new(RelayConfig::default());
    let returned = l.update_config(custom_config());
    assert_eq!(returned.port, 7777);
    let got = l.get_config();
    assert_eq!(got.port, 7777);
    assert_eq!(got.data_directory, "/var/lib/relay");
    assert_eq!(got.max_conn, 64);
    assert_eq!(got.relay_name, "Test Relay");
    assert_eq!(got.relay_description, "A relay under test.");
}

#[test]
fn update_config_keeps_the_handle() {
    let mut l = Launcher::new(RelayConfig::default());
    l.record_spawn(9);
    l.update_config(custom_config());
    assert!(l.status_probe_needed());
}

#[test]
fn stop_after_start_reports_stopped_successfully() {
    let mut l = Launcher::new(RelayConfig::default());
    l.record_spawn(4242);
    let taken = l.stop_take();
    assert_eq!(taken, Some(4242));
    let st = l.stop_status(true, None).expect("stop must succeed");
    assert!(!st.running);
    assert_eq!(st.message, "Stopped successfully");
    assert_eq!(st.port, 8080);
}

#[test]
fn stop_with_kill_error_propagates_the_message() {
    let mut l = Launcher::new(RelayConfig::default());
    l.record_spawn(4242);
    let taken = l.stop_take();
    assert_eq!(taken, Some(4242));
    let r = l.stop_status(true, Some(String::from("no such process")));
    assert_eq!(r.unwrap_err(), "Failed to kill relay process: no such process");
}

#[test]
fn status_with_unresponsive_process_clears_the_handle() {
    let mut l = Launcher::new(RelayConfig::default());
    l.record_spawn(4242);
    let st = l.report_status(Some(ProbeOutcome::NotResponding));
    assert!(!st.running);
    assert_eq!(st.message, "Error - Process not responding");
    assert!(!l.status_probe_needed());
}

#[test]
fn status_with_failing_probe_keeps_the_handle() {
    let mut l = Launcher::new(RelayConfig::default());
    l.record_spawn(4242);
    let st = l.report_status(Some(ProbeOutcome::Failed(String::from("hiccup"))));
    assert!(st.running);
    assert_eq!(st.message, "Running (status unknown)");
    assert_eq!(st.data_dir.as_deref(), Some("./relay_data"));
    assert!(l.status_probe_needed());
}

#[test]
fn stop_twice_stays_already_stopped() {
    let mut l = Launcher::new(RelayConfig::default());
    l.record_spawn(4242);
    let taken = l.stop_take();
    let st = l.stop_status(taken.is_some(), None).unwrap();
    assert_eq!(st.message, "Stopped successfully");
    let taken2 = l.stop_take();
    assert!(taken2.is_none());
    let st2 = l.stop_status(taken2.is_some(), None).unwrap();
    assert_eq!(st2.message, "Already stopped");
    assert!(!st2.running);
}
