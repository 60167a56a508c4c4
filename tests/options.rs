use intiface_cli::options::{
    check_log_level, needs_config_files, parse_options, repeater_ignores_direct_flags, select_backends, version_line,
    Backend, CliArguments, ConfigError, ConfigFileReads, LogLevel, OptionModel, Resolution,
    ServerMode,
};

const ALL_BACKENDS: [Backend; 8] = [
    Backend::BluetoothLe,
    Backend::Serial,
    Backend::Hid,
    Backend::LovenseDongleSerial,
    Backend::LovenseDongleHid,
    Backend::XInput,
    Backend::LovenseConnect,
    Backend::WebsocketServerDevice,
];

fn no_reads() -> ConfigFileReads {
    ConfigFileReads {
        device_config: Err("not read".to_string()),
        user_device_config: Err("not read".to_string()),
    }
}

fn run_model(r: Result<Resolution, ConfigError>) -> OptionModel {
    match r {
        Ok(Resolution::Run(m)) => m,
        other => panic!("expected a configuration, got {:?}", other),
    }
}

#[test]
fn insecure_port_alone_selects_repeater() {
    let mut args = CliArguments::default();
    args.wsinsecureport = Some(12345);
    let m = run_model(parse_options(&args, &no_reads(), false));
    match m.mode {
        ServerMode::Repeater { local_port, remote_address } => {
            assert_eq!(local_port, 12345);
            assert_eq!(remote_address, "ws://localhost:12345");
        }
        other => panic!("expected repeater mode, got {:?}", other),
    }
}

#[test]
fn insecure_port_wins_over_direct_server_flags() {
    let mut args = CliArguments::default();
    args.wsinsecureport = Some(8080);
    args.wsallinterfaces = true;
    args.deviceconfig = Some("/nonexistent/devices.json".to_string());
    args.servername = "Other".to_string();
    args.pingtime = 500;
    let m = run_model(parse_options(&args, &no_reads(), false));
    match m.mode {
        ServerMode::Repeater { local_port, remote_address } => {
            assert_eq!(local_port, 8080);
            assert_eq!(remote_address, "ws://localhost:12345");
        }
        other => panic!("expected repeater mode, got {:?}", other),
    }
    assert!(repeater_ignores_direct_flags(&args));
}

#[test]
fn repeater_without_direct_flags_has_nothing_to_warn_about() {
    let mut args = CliArguments::default();
    args.wsinsecureport = Some(8080);
    assert!(!repeater_ignores_direct_flags(&args));
    args.wsinsecureport = None;
    args.stayopen = true;
    assert!(!repeater_ignores_direct_flags(&args));
}

#[test]
fn no_flags_is_missing_connection() {
    let args = CliArguments::default();
    let r = parse_options(&args, &no_reads(), false);
    assert!(matches!(r, Err(ConfigError::MissingConnectionArgument)));
}

#[test]
fn direct_server_flags_without_connection_are_missing_connection() {
    let mut args = CliArguments::default();
    args.servername = "Other".to_string();
    args.deviceconfig = Some("devices.json".to_string());
    args.stayopen = true;
    args.allowraw = true;
    args.frontendpipe = true;
    args.without_serial = true;
    let r = parse_options(&args, &no_reads(), true);
    assert!(matches!(r, Err(ConfigError::MissingConnectionArgument)));
}

#[test]
fn pipe_name_alone_is_a_connection_option() {
    let mut args = CliArguments::default();
    args.ipcpipe = Some("intiface".to_string());
    let m = run_model(parse_options(&args, &no_reads(), false));
    match &m.mode {
        ServerMode::DirectServer(o) => {
            assert!(!o.listen_all_interfaces);
            assert_eq!(o.insecure_port, None);
        }
        other => panic!("expected direct server mode, got {:?}", other),
    }
    assert!(needs_config_files(&args));
}

#[test]
fn config_files_are_read_only_for_a_direct_server() {
    let mut args = CliArguments::default();
    assert!(!needs_config_files(&args));
    args.wsallinterfaces = true;
    assert!(needs_config_files(&args));
    args.version = true;
    assert!(!needs_config_files(&args));
    args.version = false;
    args.wsinsecureport = Some(12345);
    assert!(!needs_config_files(&args));
}

#[test]
fn version_flag_short_circuits() {
    let mut args = CliArguments::default();
    args.version = true;
    assert!(matches!(
        parse_options(&args, &no_reads(), false),
        Ok(Resolution::ShowVersion)
    ));
    let mut args = CliArguments::default();
    args.serverversion = true;
    args.wsinsecureport = Some(12345);
    assert!(matches!(
        parse_options(&args, &no_reads(), false),
        Ok(Resolution::ShowVersion)
    ));
}

#[test]
fn version_line_defaults_to_unknown() {
    assert_eq!(
        version_line(Some("1.2.3"), Some("abc1234"), Some("2021-01-01")),
        "Intiface CLI (Repeater) Version 1.2.3, Commit abc1234, Built 2021-01-01"
    );
    assert_eq!(
        version_line(Some("1.2.3"), None, None),
        "Intiface CLI (Repeater) Version 1.2.3, Commit unknown, Built unknown"
    );
    assert_eq!(
        version_line(None, None, None),
        "Intiface CLI (Repeater) Version unknown, Commit unknown, Built unknown"
    );
}

#[test]
fn all_interfaces_without_bluetooth_le() {
    let mut args = CliArguments::default();
    args.wsallinterfaces = true;
    args.without_bluetooth_le = true;
    let m = run_model(parse_options(&args, &no_reads(), false));
    match &m.mode {
        ServerMode::DirectServer(o) => {
            assert!(o.listen_all_interfaces);
            assert_eq!(o.insecure_port, None);
            assert_eq!(o.server_name, "Buttplug Server");
            assert_eq!(o.max_ping_time_ms, 0);
            assert!(!o.allow_raw_messages);
            assert!(!o.stay_open_after_disconnect);
            assert_eq!(o.device_config_json, None);
            assert_eq!(o.user_device_config_json, None);
        }
        other => panic!("expected direct server mode, got {:?}", other),
    }
    let b = &m.enabled_backends;
    assert!(!b.contains(Backend::BluetoothLe));
    assert!(b.contains(Backend::Serial));
    assert!(b.contains(Backend::Hid));
    assert!(b.contains(Backend::LovenseDongleSerial));
    assert!(b.contains(Backend::LovenseDongleHid));
    assert!(!b.contains(Backend::XInput));
    assert!(!b.contains(Backend::LovenseConnect));
    assert!(!b.contains(Backend::WebsocketServerDevice));
    assert!(!m.frontend_bridge_requested);
    assert_eq!(m.log_level, None);
}

#[test]
fn direct_server_passes_settings_through() {
    let mut args = CliArguments::default();
    args.wsallinterfaces = true;
    args.servername = "Test Server".to_string();
    args.pingtime = 1000;
    args.allowraw = true;
    args.stayopen = true;
    args.frontendpipe = true;
    args.log = Some(LogLevel::Debug);
    args.deviceconfig = Some("devices.json".to_string());
    args.userdeviceconfig = Some("user.json".to_string());
    let reads = ConfigFileReads {
        device_config: Ok("{\"version\":1}".to_string()),
        user_device_config: Ok("{}".to_string()),
    };
    let m = run_model(parse_options(&args, &reads, false));
    match &m.mode {
        ServerMode::DirectServer(o) => {
            assert_eq!(o.server_name, "Test Server");
            assert_eq!(o.max_ping_time_ms, 1000);
            assert!(o.allow_raw_messages);
            assert!(o.stay_open_after_disconnect);
            assert_eq!(o.device_config_json.as_deref(), Some("{\"version\":1}"));
            assert_eq!(o.user_device_config_json.as_deref(), Some("{}"));
        }
        other => panic!("expected direct server mode, got {:?}", other),
    }
    assert!(m.frontend_bridge_requested);
    assert_eq!(m.log_level, Some(LogLevel::Debug));
    assert_eq!(check_log_level(&args), Some(LogLevel::Debug));
}

#[test]
fn unreadable_device_config_is_fatal() {
    let mut args = CliArguments::default();
    args.wsallinterfaces = true;
    args.deviceconfig = Some("missing.json".to_string());
    args.userdeviceconfig = Some("also-missing.json".to_string());
    let reads = ConfigFileReads {
        device_config: Err("No such file".to_string()),
        user_device_config: Err("Permission denied".to_string()),
    };
    assert_eq!(
        parse_options(&args, &reads, false).unwrap_err(),
        ConfigError::DeviceConfigReadFailure {
            path: "missing.json".to_string(),
            cause: "No such file".to_string(),
        }
    );
}

#[test]
fn unreadable_user_device_config_is_fatal() {
    let mut args = CliArguments::default();
    args.wsallinterfaces = true;
    args.deviceconfig = Some("devices.json".to_string());
    args.userdeviceconfig = Some("user.json".to_string());
    let reads = ConfigFileReads {
        device_config: Ok("{}".to_string()),
        user_device_config: Err("Permission denied".to_string()),
    };
    assert_eq!(
        parse_options(&args, &reads, false).unwrap_err(),
        ConfigError::DeviceConfigReadFailure {
            path: "user.json".to_string(),
            cause: "Permission denied".to_string(),
        }
    );
}

#[test]
fn unnamed_config_files_are_not_looked_at() {
    let mut args = CliArguments::default();
    args.wsallinterfaces = true;
    let m = run_model(parse_options(&args, &no_reads(), false));
    assert!(matches!(m.mode, ServerMode::DirectServer(_)));
}

#[test]
fn gamepad_backend_only_on_windows() {
    let args = CliArguments::default();
    assert!(select_backends(&args, true).contains(Backend::XInput));
    assert!(!select_backends(&args, false).contains(Backend::XInput));
    let mut args = CliArguments::default();
    args.without_xinput = true;
    assert!(!select_backends(&args, true).contains(Backend::XInput));
}

#[test]
fn opt_in_backends_need_their_flags() {
    let mut args = CliArguments::default();
    args.with_lovense_connect = true;
    let b = select_backends(&args, false);
    assert!(b.contains(Backend::LovenseConnect));
    assert!(!b.contains(Backend::WebsocketServerDevice));
    args.with_websocket_server_device = true;
    assert!(select_backends(&args, false).contains(Backend::WebsocketServerDevice));
}

#[test]
fn without_flags_remove_exactly_their_backends() {
    // Every subset of the six "without" flags, on both platforms.
    for mask in 0u32..64 {
        for on_windows in [false, true] {
            let mut args = CliArguments::default();
            args.without_bluetooth_le = mask & 1 != 0;
            args.without_serial = mask & 2 != 0;
            args.without_hid = mask & 4 != 0;
            args.without_lovense_dongle_serial = mask & 8 != 0;
            args.without_lovense_dongle_hid = mask & 16 != 0;
            args.without_xinput = mask & 32 != 0;
            let b = select_backends(&args, on_windows);
            for (i, backend) in ALL_BACKENDS.iter().enumerate() {
                let expected = if i < 6 {
                    mask & (1 << i) == 0 && (*backend != Backend::XInput || on_windows)
                } else {
                    false
                };
                assert_eq!(b.contains(*backend), expected, "mask {} backend {:?}", mask, backend);
            }
        }
    }
}

#[test]
fn repeater_mode_keeps_backend_and_bridge_settings() {
    let mut args = CliArguments::default();
    args.wsinsecureport = Some(1);
    args.without_hid = true;
    args.frontendpipe = true;
    args.log = Some(LogLevel::Warn);
    let m = run_model(parse_options(&args, &no_reads(), false));
    assert!(!m.enabled_backends.contains(Backend::Hid));
    assert!(m.enabled_backends.contains(Backend::Serial));
    assert!(m.frontend_bridge_requested);
    assert_eq!(m.log_level, Some(LogLevel::Warn));
}
