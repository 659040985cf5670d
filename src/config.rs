//! Static configuration: charger identity, broker, time server, protocol
//! settings. Values come from a small TOML text, each overridable by a value
//! fixed when the firmware is built, with a default for each.
use vstd::prelude::*;
use vstd::string::StringExecFns;
use crate::text::{
    drop_ws, find_char, find_chars, find_either, find_in, parse_in_range, parse_int_window,
    skip_ws, to_chars, trim_window, window_eq,
};

verus! {

/// Configuration of the charge point.
#[derive(Clone, Debug)]
pub struct Config {
    pub wifi_ssid: String,
    pub wifi_password: String,
    pub charger_name: String,
    pub charger_model: String,
    pub charger_vendor: String,
    pub charger_serial: String,
    pub mqtt_broker: String,
    pub mqtt_port: u16,
    pub mqtt_client_id: String,
    pub ntp_server: String,
    /// Minutes between time synchronizations.
    pub ntp_sync_interval_minutes: u16,
    /// Offset of local time from UTC, in hours.
    pub timezone_offset_hours: i8,
    /// Seconds between heartbeats.
    pub ocpp_heartbeat_interval: u16,
    /// Id tag used for authorization and transactions.
    pub ocpp_id_tag: String,
}

/// Values fixed at build time that take precedence over the TOML text; the
/// numeric ones are still text and are read as the TOML ones are.
pub struct ConfigOverrides {
    pub wifi_ssid: Option<String>,
    pub wifi_password: Option<String>,
    pub charger_name: Option<String>,
    pub charger_model: Option<String>,
    pub charger_vendor: Option<String>,
    pub charger_serial: Option<String>,
    pub mqtt_broker: Option<String>,
    pub mqtt_port: Option<String>,
    pub mqtt_client_id: Option<String>,
    pub ntp_server: Option<String>,
    pub ntp_sync_interval_minutes: Option<String>,
    pub timezone_offset_hours: Option<String>,
    pub ocpp_heartbeat_interval: Option<String>,
    pub ocpp_id_tag: Option<String>,
}

pub open spec fn section_marker(section: Seq<char>) -> Seq<char> {
    seq!['['] + section + seq![']']
}

/// Value window `[a, b)` of a trimmed line `[la, lb)` that holds `=` at `eq`:
/// the text after `=`, trimmed, and without its quotes when it is quoted.
pub open spec fn value_window(t: Seq<char>, eq: int, lb: int) -> (int, int) {
    let va = skip_ws(t, eq + 1, lb);
    let vb = drop_ws(t, va, lb);
    if vb - va >= 2 && t[va] == '"' && t[vb - 1] == '"' {
        (va + 1, vb - 1)
    } else {
        (va, vb)
    }
}

/// Scans the lines of the window `[lo, hi)` for the first trimmed line that
/// starts with `key` and holds `=`; gives the window of its value.
pub open spec fn scan_lines(t: Seq<char>, key: Seq<char>, lo: int, hi: int) -> Option<(int, int)>
    decreases hi - lo + 1,
{
    if lo < 0 || hi > t.len() || lo > hi {
        None
    } else {
        let le = match find_either(t, '\n', '\n', lo, hi) {
            Some(i) => i,
            None => hi,
        };
        let la = skip_ws(t, lo, le);
        let lb = drop_ws(t, la, le);
        let eq = find_either(t, '=', '=', la, lb);
        if lb - la >= key.len() && t.subrange(la, la + key.len()) == key && eq is Some {
            Some(value_window(t, eq.unwrap(), lb))
        } else if le >= hi || le < lo {
            None
        } else {
            scan_lines(t, key, le + 1, hi)
        }
    }
}

/// Window of the value of `key` in `[section]` of the TOML text `t`. The
/// section runs from its header to the next `[` (or the end of the text).
pub open spec fn toml_window(t: Seq<char>, section: Seq<char>, key: Seq<char>) -> Option<(int, int)> {
    match find_in(t, section_marker(section), 0, t.len() as int) {
        Some(m) => {
            let a = m + section_marker(section).len();
            let e = match find_either(t, '[', '[', a, t.len() as int) {
                Some(i) => i,
                None => t.len() as int,
            };
            scan_lines(t, key, a, e)
        },
        None => None,
    }
}

pub open spec fn toml_string(t: Seq<char>, section: Seq<char>, key: Seq<char>) -> Option<Seq<char>> {
    match toml_window(t, section, key) {
        Some((a, b)) => Some(t.subrange(a, b)),
        None => None,
    }
}

/// A TOML value read as a `u16`.
pub open spec fn toml_u16(t: Seq<char>, section: Seq<char>, key: Seq<char>) -> Option<int> {
    match toml_string(t, section, key) {
        Some(v) => parse_in_range(v, false, 0, 0xffff),
        None => None,
    }
}

/// An override, else a value from the TOML text, else a default.
pub open spec fn first_of(o: Option<String>, t: Option<Seq<char>>, d: Seq<char>) -> Seq<char> {
    match o {
        Some(s) => s@,
        None => match t {
            Some(v) => v,
            None => d,
        },
    }
}

/// A numeric override read in `[min, max]`, else a TOML value, else a default.
pub open spec fn first_int_of(o: Option<String>, signed: bool, min: int, max: int, t: Option<int>, d: int) -> int {
    match o {
        Some(s) => match parse_in_range(s@, signed, min, max) {
            Some(v) => v,
            None => match t {
                Some(v) => v,
                None => d,
            },
        },
        None => match t {
            Some(v) => v,
            None => d,
        },
    }
}

/// The timezone offset as the TOML text gives it: read as a `u16` and then
/// taken as an `i8` (two's complement of its low byte).
pub open spec fn toml_offset(t: Seq<char>) -> Option<int> {
    match toml_u16(t, "display"@, "timezone_offset_hours"@) {
        Some(v) => Some(((v as u16) as i8) as int),
        None => None,
    }
}

fn scan_value(t: &Vec<char>, key: &str, lo: usize, hi: usize) -> (r: Option<(usize, usize)>)
    requires
        lo <= hi <= t@.len(),
    ensures
        r matches Some(w) ==> scan_lines(t@, key@, lo as int, hi as int) == Some(
            (w.0 as int, w.1 as int),
        ) && w.0 <= w.1 <= t@.len(),
        r is None ==> scan_lines(t@, key@, lo as int, hi as int) is None,
    decreases hi - lo,
{
    let le = match find_char(t, '\n', '\n', lo, hi) {
        Some(i) => i,
        None => hi,
    };
    let (la, lb) = trim_window(t, lo, le);
    let klen = key.unicode_len();
    let eq = find_char(t, '=', '=', la, lb);
    if lb - la >= klen && window_eq(t, la, la + klen, key) && eq.is_some() {
        let e = eq.unwrap();
        let (va, vb) = trim_window(t, e + 1, lb);
        if vb - va >= 2 && t[va] == '"' && t[vb - 1] == '"' {
            Some((va + 1, vb - 1))
        } else {
            Some((va, vb))
        }
    } else if le >= hi {
        None
    } else {
        scan_value(t, key, le + 1, hi)
    }
}

fn toml_value_window(t: &Vec<char>, section: &str, key: &str) -> (r: Option<(usize, usize)>)
    ensures
        r matches Some(w) ==> toml_window(t@, section@, key@) == Some((w.0 as int, w.1 as int))
            && w.0 <= w.1 <= t@.len(),
        r is None ==> toml_window(t@, section@, key@) is None,
{
    let mut marker: Vec<char> = vec!['['];
    let sec = to_chars(section);
    let mut i: usize = 0;
    while i < sec.len()
        invariant
            i <= sec@.len(),
            marker@ == seq!['['] + sec@.subrange(0, i as int),
        decreases sec@.len() - i,
    {
        marker.push(sec[i]);
        i += 1;
        assert(marker@ =~= seq!['['] + sec@.subrange(0, i as int));
    }
    marker.push(']');
    assert(marker@ =~= section_marker(section@));
    match find_chars(t, &marker, 0, t.len()) {
        Some(m) => {
            let a = m + marker.len();
            let e = match find_char(t, '[', '[', a, t.len()) {
                Some(i) => i,
                None => t.len(),
            };
            scan_value(t, key, a, e)
        },
        None => None,
    }
}

/// Characters `[a, b)` of `s`, whose characters are `t`, as a string.
fn substring(s: &str, t: &Vec<char>, a: usize, b: usize) -> (r: String)
    requires
        t@ == s@,
        a <= b <= t@.len(),
    ensures
        r@ == t@.subrange(a as int, b as int),
{
    s.substring_char(a, b).to_owned()
}

/// The value of `key` in `[section]` of the TOML text, quotes removed.
pub fn extract_toml_string(content: &str, section: &str, key: &str) -> (r: Option<String>)
    ensures
        match r {
            Some(v) => toml_string(content@, section@, key@) == Some(v@),
            None => toml_string(content@, section@, key@) is None,
        },
{
    let t = to_chars(content);
    match toml_value_window(&t, section, key) {
        Some((a, b)) => Some(substring(content, &t, a, b)),
        None => None,
    }
}

/// The value of `key` in `[section]` of the TOML text, read as a `u16`.
pub fn extract_toml_integer(content: &str, section: &str, key: &str) -> (r: Option<u16>)
    ensures
        match r {
            Some(v) => toml_u16(content@, section@, key@) == Some(v as int),
            None => toml_u16(content@, section@, key@) is None,
        },
{
    let t = to_chars(content);
    match toml_value_window(&t, section, key) {
        Some((a, b)) => match parse_int_window(&t, a, b, false, 0, 0xffff) {
            Some(v) => Some(v as u16),
            None => None,
        },
        None => None,
    }
}

fn string_or(o: &Option<String>, t: Option<String>, d: &str) -> (r: String)
    ensures
        r@ == first_of(*o, match t {
            Some(s) => Some(s@),
            None => None,
        }, d@),
{
    match o {
        Some(s) => s.clone(),
        None => match t {
            Some(v) => v,
            None => d.to_owned(),
        },
    }
}

fn int_or(o: &Option<String>, signed: bool, min: i64, max: i64, t: Option<i64>, d: i64) -> (r: i64)
    requires
        -0x1_0000_0000 <= min <= 0 <= max <= 0x1_0000_0000,
        t matches Some(v) ==> min <= v <= max,
        min <= d <= max,
    ensures
        min <= r <= max,
        r as int == first_int_of(*o, signed, min as int, max as int, match t {
            Some(v) => Some(v as int),
            None => None,
        }, d as int),
{
    let parsed = match o {
        Some(s) => {
            let c = to_chars(s.as_str());
            parse_int_window(&c, 0, c.len(), signed, min, max)
        },
        None => None,
    };
    proof {
        if o is Some {
            assert(o.unwrap()@.subrange(0, o.unwrap()@.len() as int) =~= o.unwrap()@);
        }
    }
    match parsed {
        Some(v) => v,
        None => match t {
            Some(v) => v,
            None => d,
        },
    }
}

fn u16_field(o: &Option<String>, t: Option<u16>, d: u16) -> (r: u16)
    ensures
        r as int == first_int_of(*o, false, 0, 0xffff, match t {
            Some(v) => Some(v as int),
            None => None,
        }, d as int),
{
    let tv: Option<i64> = match t {
        Some(v) => Some(v as i64),
        None => None,
    };
    int_or(o, false, 0, 0xffff, tv, d as i64) as u16
}

impl Config {
    /// Configuration from the TOML text `toml`, each value overridden by
    /// `env` where it holds one, with a default for each value neither gives.
    /// A numeric value that does not read as its type counts as absent.
    pub fn from_config(toml: &str, env: &ConfigOverrides) -> (r: Config)
        ensures
            r.wifi_ssid@ == first_of(env.wifi_ssid, toml_string(toml@, "wifi"@, "ssid"@), "Wokwi-GUEST"@),
            r.wifi_password@ == first_of(env.wifi_password, toml_string(toml@, "wifi"@, "password"@), ""@),
            r.charger_name@ == first_of(env.charger_name, toml_string(toml@, "charger"@, "name"@), "esp32c6 charger 001"@),
            r.charger_model@ == first_of(env.charger_model, toml_string(toml@, "charger"@, "model"@), "ESP32-C6"@),
            r.charger_vendor@ == first_of(env.charger_vendor, toml_string(toml@, "charger"@, "vendor"@), "GA Make"@),
            r.charger_serial@ == first_of(env.charger_serial, toml_string(toml@, "charger"@, "serial"@), "esp32c6-charger-001"@),
            r.mqtt_broker@ == first_of(env.mqtt_broker, toml_string(toml@, "mqtt"@, "broker"@), "broker.hivemq.com"@),
            r.mqtt_port as int == first_int_of(env.mqtt_port, false, 0, 0xffff, toml_u16(toml@, "mqtt"@, "port"@), 1883),
            r.mqtt_client_id@ == first_of(env.mqtt_client_id, toml_string(toml@, "mqtt"@, "client_id"@), "esp32c6-charger-001"@),
            r.ntp_server@ == first_of(env.ntp_server, toml_string(toml@, "ntp"@, "server"@), "pool.ntp.org"@),
            r.ntp_sync_interval_minutes as int == first_int_of(env.ntp_sync_interval_minutes, false, 0, 0xffff, toml_u16(toml@, "ntp"@, "sync_interval_minutes"@), 240),
            r.timezone_offset_hours as int == first_int_of(env.timezone_offset_hours, true, -128, 127, toml_offset(toml@), 0),
            r.ocpp_heartbeat_interval as int == first_int_of(env.ocpp_heartbeat_interval, false, 0, 0xffff, toml_u16(toml@, "ocpp"@, "heartbeat_interval"@), 900),
            r.ocpp_id_tag@ == first_of(env.ocpp_id_tag, toml_string(toml@, "ocpp"@, "id_tag"@), "123456"@),
    {
        let offset: Option<i64> = match extract_toml_integer(toml, "display", "timezone_offset_hours") {
            Some(v) => Some((v as i8) as i64),
            None => None,
        };
        Config {
            wifi_ssid: string_or(&env.wifi_ssid, extract_toml_string(toml, "wifi", "ssid"), "Wokwi-GUEST"),
            wifi_password: string_or(&env.wifi_password, extract_toml_string(toml, "wifi", "password"), ""),
            charger_name: string_or(&env.charger_name, extract_toml_string(toml, "charger", "name"), "esp32c6 charger 001"),
            charger_model: string_or(&env.charger_model, extract_toml_string(toml, "charger", "model"), "ESP32-C6"),
            charger_vendor: string_or(&env.charger_vendor, extract_toml_string(toml, "charger", "vendor"), "GA Make"),
            charger_serial: string_or(&env.charger_serial, extract_toml_string(toml, "charger", "serial"), "esp32c6-charger-001"),
            mqtt_broker: string_or(&env.mqtt_broker, extract_toml_string(toml, "mqtt", "broker"), "broker.hivemq.com"),
            mqtt_port: u16_field(&env.mqtt_port, extract_toml_integer(toml, "mqtt", "port"), 1883),
            mqtt_client_id: string_or(&env.mqtt_client_id, extract_toml_string(toml, "mqtt", "client_id"), "esp32c6-charger-001"),
            ntp_server: string_or(&env.ntp_server, extract_toml_string(toml, "ntp", "server"), "pool.ntp.org"),
            ntp_sync_interval_minutes: u16_field(&env.ntp_sync_interval_minutes, extract_toml_integer(toml, "ntp", "sync_interval_minutes"), 240),
            timezone_offset_hours: int_or(&env.timezone_offset_hours, true, -128, 127, offset, 0) as i8,
            ocpp_heartbeat_interval: u16_field(&env.ocpp_heartbeat_interval, extract_toml_integer(toml, "ocpp", "heartbeat_interval"), 900),
            ocpp_id_tag: string_or(&env.ocpp_id_tag, extract_toml_string(toml, "ocpp", "id_tag"), "123456"),
        }
    }

    /// Configuration from the build-time values alone, with a default for each
    /// value they do not give.
    pub fn from_env(env: &ConfigOverrides) -> (r: Config)
        ensures
            r.wifi_ssid@ == first_of(env.wifi_ssid, None, "Wokwi-GUEST"@),
            r.wifi_password@ == first_of(env.wifi_password, None, ""@),
            r.charger_name@ == first_of(env.charger_name, None, "esp32c6-charger-001"@),
            r.charger_model@ == first_of(env.charger_model, None, "ESP32-C6"@),
            r.charger_vendor@ == first_of(env.charger_vendor, None, "GA Make"@),
            r.charger_serial@ == first_of(env.charger_serial, None, "esp32c6-charger-001"@),
            r.mqtt_broker@ == first_of(env.mqtt_broker, None, "broker.hivemq.com"@),
            r.mqtt_port as int == first_int_of(env.mqtt_port, false, 0, 0xffff, None, 1883),
            r.mqtt_client_id@ == first_of(env.mqtt_client_id, None, "esp32c6-charger-001"@),
            r.ntp_server@ == first_of(env.ntp_server, None, "pool.ntp.org"@),
            r.ntp_sync_interval_minutes as int == first_int_of(env.ntp_sync_interval_minutes, false, 0, 0xffff, None, 240),
            r.timezone_offset_hours as int == first_int_of(env.timezone_offset_hours, true, -128, 127, None, 0),
            r.ocpp_heartbeat_interval as int == first_int_of(env.ocpp_heartbeat_interval, false, 0, 0xffff, None, 900),
            r.ocpp_id_tag@ == first_of(env.ocpp_id_tag, None, "123456"@),
    {
        Config {
            wifi_ssid: string_or(&env.wifi_ssid, None, "Wokwi-GUEST"),
            wifi_password: string_or(&env.wifi_password, None, ""),
            charger_name: string_or(&env.charger_name, None, "esp32c6-charger-001"),
            charger_model: string_or(&env.charger_model, None, "ESP32-C6"),
            charger_vendor: string_or(&env.charger_vendor, None, "GA Make"),
            charger_serial: string_or(&env.charger_serial, None, "esp32c6-charger-001"),
            mqtt_broker: string_or(&env.mqtt_broker, None, "broker.hivemq.com"),
            mqtt_port: u16_field(&env.mqtt_port, None, 1883),
            mqtt_client_id: string_or(&env.mqtt_client_id, None, "esp32c6-charger-001"),
            ntp_server: string_or(&env.ntp_server, None, "pool.ntp.org"),
            ntp_sync_interval_minutes: u16_field(&env.ntp_sync_interval_minutes, None, 240),
            timezone_offset_hours: int_or(&env.timezone_offset_hours, true, -128, 127, None, 0) as i8,
            ocpp_heartbeat_interval: u16_field(&env.ocpp_heartbeat_interval, None, 900),
            ocpp_id_tag: string_or(&env.ocpp_id_tag, None, "123456"),
        }
    }
}

impl Config {
    /// Topic this charge point publishes on: `/charger/<serial>`.
    pub fn charger_topic(&self) -> (r: String)
        ensures
            r@ == "/charger/"@ + self.charger_serial@,
    {
        let mut topic = String::from_str("/charger/");
        topic.append(self.charger_serial.as_str());
        topic
    }

    /// Topic this charge point listens on: `/system/<serial>`.
    pub fn system_topic(&self) -> (r: String)
        ensures
            r@ == "/system/"@ + self.charger_serial@,
    {
        let mut topic = String::from_str("/system/");
        topic.append(self.charger_serial.as_str());
        topic
    }
}

} // verus!
