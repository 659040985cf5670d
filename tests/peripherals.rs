use esp32c6_embassy_charged::actuators::{
    boot_state, cable_event, initial_led_level, led_level, lock_command, relay_closed,
};
use esp32c6_embassy_charged::bus::BroadcastRecord;
use esp32c6_embassy_charged::charger::{ChargerState, InputEvent, OutputEvent};
use esp32c6_embassy_charged::config::{Config, ConfigOverrides};
use esp32c6_embassy_charged::display::status_lines;
use esp32c6_embassy_charged::ntp::{NtpError, NtpPacket, TimeSync, NTP_EPOCH_OFFSET};

fn config_with_serial(serial: &str, tz: &str) -> Config {
    let env = ConfigOverrides {
        wifi_ssid: None,
        wifi_password: None,
        charger_name: None,
        charger_model: None,
        charger_vendor: None,
        charger_serial: Some(serial.to_string()),
        mqtt_broker: None,
        mqtt_port: None,
        mqtt_client_id: None,
        ntp_server: None,
        ntp_sync_interval_minutes: None,
        timezone_offset_hours: Some(tz.to_string()),
        ocpp_heartbeat_interval: None,
        ocpp_id_tag: None,
    };
    Config::from_env(&env)
}

fn rec(state: ChargerState, outputs: Vec<OutputEvent>) -> BroadcastRecord {
    BroadcastRecord { state, outputs }
}

#[test]
fn relay_led_and_lock_follow_records() {
    let charging = rec(ChargerState::Charging, vec![OutputEvent::ApplyPower, OutputEvent::Lock]);
    let stopped = rec(ChargerState::Occupied, vec![OutputEvent::RemovePower, OutputEvent::Unlock]);
    let idle = rec(ChargerState::Available, vec![]);
    assert!(relay_closed(&charging));
    assert!(!relay_closed(&stopped));
    assert!(!relay_closed(&rec(ChargerState::Charging, vec![])));
    assert!(!led_level(&charging));
    assert!(led_level(&idle));
    assert!(initial_led_level(ChargerState::Charging));
    assert!(!initial_led_level(ChargerState::Available));
    assert_eq!(lock_command(&charging), Some(true));
    assert_eq!(lock_command(&stopped), Some(false));
    assert_eq!(lock_command(&idle), None);
}

#[test]
fn cable_switch_levels() {
    assert_eq!(cable_event(true), InputEvent::InsertCable);
    assert_eq!(cable_event(false), InputEvent::RemoveCable);
    assert_eq!(boot_state(true), ChargerState::Occupied);
    assert_eq!(boot_state(false), ChargerState::Available);
}

fn response_at(unix: u32) -> Vec<u8> {
    let mut p = NtpPacket::new_request();
    p.trans_timestamp = (unix as u64 + NTP_EPOCH_OFFSET as u64) << 32;
    p.to_bytes()
}

#[test]
fn ntp_response_errors() {
    let mut clock = TimeSync::new();
    let ok = response_at(1_700_000_000);
    assert_eq!(clock.sync_from_response(&ok, 47, 5), Err(NtpError::TooShort));
    assert!(!clock.is_time_synced());
    let zero = NtpPacket::new_request().to_bytes();
    assert_eq!(clock.sync_from_response(&zero, 48, 5), Err(NtpError::InvalidTimestamp));
    assert!(!clock.is_time_synced());
    assert_eq!(clock.sync_from_response(&ok, 48, 5), Ok(1_700_000_000));
    assert!(clock.is_time_synced());
    assert_eq!(clock.get_current_unix_time(65), 1_700_000_060);
}

#[test]
fn local_time_with_offsets() {
    let mut clock = TimeSync::new();
    assert_eq!(clock.get_local_time_formatted(0, 1), "--:--:--");
    assert_eq!(clock.get_local_date_formatted(0, 1), "--/--");
    // 2023-11-14T22:13:20Z
    clock.record_sync(1_700_000_000, 0);
    assert_eq!(clock.get_local_time_formatted(0, 0), "22:13:20");
    assert_eq!(clock.get_local_date_formatted(0, 0), "11/14");
    assert_eq!(clock.get_local_time_formatted(0, 2), "00:13:20");
    assert_eq!(clock.get_local_date_formatted(0, 2), "11/15");
    assert_eq!(clock.get_local_time_formatted(0, -5), "17:13:20");
    // A day or more of offset counts as none.
    assert_eq!(clock.get_local_time_formatted(0, 24), "22:13:20");
    assert_eq!(clock.get_timing_info(30), "NTP : Synced: 30s ago, Unix: 1700000030, Boot: 30s");
    assert_eq!(TimeSync::new().get_timing_info(30), "Time not synced yet");
}

#[test]
fn status_display_lines() {
    let clock = TimeSync::new();
    let config = config_with_serial("esp32c6-charger-001-extra", "0");
    let lines = status_lines(&config, ChargerState::Authorizing, Some((192, 168, 0, 7)), &clock, 0);
    assert_eq!(lines.serial, "esp32c6-charger-0...");
    assert_eq!(lines.state, "Authorizing");
    assert_eq!(lines.state_x, 9);
    assert_eq!(lines.ip, "192.168.0.7");
    assert_eq!(lines.time, "Time Not Synced");

    let mut clock = TimeSync::new();
    clock.record_sync(1_700_000_000, 0);
    let config = config_with_serial("short", "1");
    let lines = status_lines(&config, ChargerState::Faulted, None, &clock, 0);
    assert_eq!(lines.serial, "short");
    assert_eq!(lines.state, "Error");
    assert_eq!(lines.state_x, 39);
    assert_eq!(lines.ip, "Not Connected");
    assert_eq!(lines.time, "11/14 23:13:20");
}
