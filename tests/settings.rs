use esp32c6_embassy_charged::config::{extract_toml_integer, extract_toml_string, Config, ConfigOverrides};
use esp32c6_embassy_charged::ntp::{days_to_date, is_leap_year, NtpPacket, TimeSync, NTP_EPOCH_OFFSET};
use esp32c6_embassy_charged::utils::bytes_to_hex_string;

const TOML: &str = "# charger settings
[wifi]
ssid = \"Home\"
password = \"SECRET-REDACTED\"

[charger]
name = \"bay 4\"
  serial   =   \"ser-77\"  

[mqtt]
port = 8883
broker = test.mosquitto.org

[ntp]
sync_interval_minutes = 60

[display]
timezone_offset_hours = 250

[ocpp]
heartbeat_interval = nope
id_tag = \"\"
";

fn none() -> ConfigOverrides {
    ConfigOverrides {
        wifi_ssid: None,
        wifi_password: None,
        charger_name: None,
        charger_model: None,
        charger_vendor: None,
        charger_serial: None,
        mqtt_broker: None,
        mqtt_port: None,
        mqtt_client_id: None,
        ntp_server: None,
        ntp_sync_interval_minutes: None,
        timezone_offset_hours: None,
        ocpp_heartbeat_interval: None,
        ocpp_id_tag: None,
    }
}

#[test]
fn toml_strings_are_found_per_section() {
    assert_eq!(extract_toml_string(TOML, "wifi", "ssid"), Some("Home".to_string()));
    assert_eq!(extract_toml_string(TOML, "charger", "serial"), Some("ser-77".to_string()));
    assert_eq!(extract_toml_string(TOML, "mqtt", "broker"), Some("test.mosquitto.org".to_string()));
    assert_eq!(extract_toml_string(TOML, "ocpp", "id_tag"), Some("".to_string()));
    assert_eq!(extract_toml_string(TOML, "wifi", "broker"), None);
    assert_eq!(extract_toml_string(TOML, "missing", "ssid"), None);
}

#[test]
fn toml_integers_read_as_u16() {
    assert_eq!(extract_toml_integer(TOML, "mqtt", "port"), Some(8883));
    assert_eq!(extract_toml_integer(TOML, "ocpp", "heartbeat_interval"), None);
    assert_eq!(extract_toml_integer(TOML, "wifi", "ssid"), None);
}

#[test]
fn config_prefers_overrides_then_toml_then_defaults() {
    let mut env = none();
    env.charger_name = Some("override".to_string());
    env.ntp_sync_interval_minutes = Some("15".to_string());
    env.mqtt_port = Some("not a port".to_string());
    let c = Config::from_config(TOML, &env);
    assert_eq!(c.charger_name, "override");
    assert_eq!(c.wifi_ssid, "Home");
    assert_eq!(c.charger_model, "ESP32-C6");
    assert_eq!(c.mqtt_port, 8883);
    assert_eq!(c.ntp_sync_interval_minutes, 15);
    assert_eq!(c.timezone_offset_hours, -6);
    assert_eq!(c.ocpp_heartbeat_interval, 900);
    assert_eq!(c.ocpp_id_tag, "");
    assert_eq!(c.ntp_server, "pool.ntp.org");
    assert_eq!(c.charger_topic(), "/charger/ser-77");
    assert_eq!(c.system_topic(), "/system/ser-77");
}

#[test]
fn config_from_env_defaults() {
    let mut env = none();
    env.timezone_offset_hours = Some("-5".to_string());
    let c = Config::from_env(&env);
    assert_eq!(c.charger_name, "esp32c6-charger-001");
    assert_eq!(c.mqtt_broker, "broker.hivemq.com");
    assert_eq!(c.mqtt_port, 1883);
    assert_eq!(c.timezone_offset_hours, -5);
    assert_eq!(c.ntp_sync_interval_minutes, 240);
    assert_eq!(c.ocpp_id_tag, "123456");
}

#[test]
fn ntp_request_bytes() {
    let b = NtpPacket::new_request().to_bytes();
    assert_eq!(b.len(), 48);
    assert_eq!(b[0], 0x1b);
    assert!(b[1..].iter().all(|x| *x == 0));
}

#[test]
fn ntp_packet_round_trip_and_timestamp() {
    let mut p = NtpPacket::new_request();
    p.root_delay = 0x0102_0304;
    p.trans_timestamp = ((NTP_EPOCH_OFFSET as u64 + 1_700_000_000) << 32) | 0xdead;
    p.precision = -20;
    let b = p.to_bytes();
    assert_eq!(&b[4..8], &[1, 2, 3, 4]);
    let q = NtpPacket::from_bytes(&b).unwrap();
    assert_eq!(q, p);
    assert_eq!(q.get_unix_timestamp(), Some(1_700_000_000));
    assert_eq!(NtpPacket::from_bytes(&b[..47]), None);
    assert_eq!(NtpPacket::new_request().get_unix_timestamp(), None);
}

#[test]
fn calendar_dates() {
    assert_eq!(days_to_date(0), (1970, 1, 1));
    assert_eq!(days_to_date(31), (1970, 2, 1));
    assert_eq!(days_to_date(59), (1970, 3, 1));
    assert_eq!(days_to_date(365), (1971, 1, 1));
    assert_eq!(days_to_date(11016), (2000, 2, 29));
    assert_eq!(days_to_date(19675), (2023, 11, 14));
    assert!(is_leap_year(2000));
    assert!(!is_leap_year(1900));
    assert!(is_leap_year(2024));
    assert!(!is_leap_year(2023));
}

#[test]
fn synchronized_clock() {
    let mut t = TimeSync::new();
    assert!(!t.is_time_synced());
    assert_eq!(t.get_current_unix_time(100), 0);
    assert_eq!(t.minutes_since_last_sync(100), u32::MAX);
    assert_eq!(t.get_iso8601_time(100), "1970-01-01T00:00:00Z");
    t.record_sync(1_700_000_000, 100);
    assert!(t.is_time_synced());
    assert_eq!(t.get_current_unix_time(160), 1_700_000_060);
    assert_eq!(t.minutes_since_last_sync(250), 2);
    assert_eq!(t.get_iso8601_time(100), "2023-11-14T22:13:20Z");
}

#[test]
fn hex_strings_fit_their_capacity() {
    assert_eq!(bytes_to_hex_string(&[0x0a, 0xff, 0x10], 24), "0aff10");
    assert_eq!(bytes_to_hex_string(&[0x0a, 0xff, 0x10], 5), "0aff");
    assert_eq!(bytes_to_hex_string(&[], 8), "");
}

#[test]
fn toml_with_crlf_lines_and_prefix_keys() {
    let toml = "[mqtt]\r\nbroker_backup = \"b\"\r\nbroker = \"a\"\r\n[ntp]\r\nserver=\"t\"\r\n";
    // The first line that starts with the key wins, as a prefix match.
    assert_eq!(extract_toml_string(toml, "mqtt", "broker"), Some("b".to_string()));
    assert_eq!(extract_toml_string(toml, "ntp", "server"), Some("t".to_string()));
    assert_eq!(extract_toml_string("[a]\nk = \"\n", "a", "k"), Some("\"".to_string()));
}
