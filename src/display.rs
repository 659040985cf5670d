//! What the status display shows: the charger's serial number, its state
//! (centered on a 128-pixel line in a 10-pixel-wide font), its IP address and
//! the local date and time. Drawing the lines is left to the display driver.
use vstd::prelude::*;
use crate::bindings::string_from_chars;
use crate::charger::{state_name, ChargerState};
use crate::config::Config;
use crate::ntp::{is_local_date_text, local_clock_text, TimeSync};
use crate::text::{decimal, push_text, to_chars};

verus! {

/// Width of the display in pixels.
pub const DISPLAY_WIDTH: i32 = 128;

/// Width of a character of the state font in pixels.
pub const STATE_CHAR_WIDTH: i32 = 10;

/// The text lines of the status display.
pub struct StatusLines {
    /// The serial number, cut to 17 characters and `...` when longer than 20.
    pub serial: String,
    /// The state's name.
    pub state: &'static str,
    /// Left edge of the state's name, so that it is centered.
    pub state_x: i32,
    /// The IP address, or `Not Connected`.
    pub ip: String,
    /// `MM/DD HH:MM:SS` local time, or `Time Not Synced`.
    pub time: String,
}

pub open spec fn serial_text(serial: Seq<char>) -> Seq<char> {
    if serial.len() > 20 {
        serial.subrange(0, 17) + "..."@
    } else {
        serial
    }
}

pub open spec fn ip_text(ip: Option<(u8, u8, u8, u8)>) -> Seq<char> {
    match ip {
        Some((a, b, c, d)) => decimal(a as nat) + seq!['.'] + decimal(b as nat) + seq!['.']
            + decimal(c as nat) + seq!['.'] + decimal(d as nat),
        None => "Not Connected"@,
    }
}

/// Left edge that centers a text of `n` characters (integer division toward zero).
pub open spec fn centered_x(n: int) -> int {
    let w = DISPLAY_WIDTH - n * STATE_CHAR_WIDTH;
    if w >= 0 {
        w / 2
    } else {
        -((-w) / 2)
    }
}

fn push_decimal(out: &mut Vec<char>, n: u8)
    ensures
        final(out)@ == old(out)@ + decimal(n as nat),
{
    crate::text::write_u32_to_temp(out, n as u32);
}

/// The lines of the status display for the given configuration, state,
/// address and clock reading (`now`: monotonic seconds).
pub fn status_lines(
    config: &Config,
    state: ChargerState,
    ip: Option<(u8, u8, u8, u8)>,
    clock: &TimeSync,
    now: u32,
) -> (r: StatusLines)
    ensures
        r.serial@ == serial_text(config.charger_serial@),
        r.state@ == state_name(state),
        r.state_x as int == centered_x(state_name(state).len() as int),
        r.ip@ == ip_text(ip),
        !clock.spec_synced() ==> r.time@ == "Time Not Synced"@,
        clock.spec_synced() ==> exists|d: Seq<char>|
            #[trigger] is_local_date_text(clock.unix_at(now), config.timezone_offset_hours, d) && r.time@
                == d + seq![' '] + local_clock_text(clock.unix_at(now), config.timezone_offset_hours),
{
    let serial_chars = to_chars(config.charger_serial.as_str());
    let serial = if serial_chars.len() > 20 {
        let mut v: Vec<char> = Vec::new();
        let mut i: usize = 0;
        while i < 17
            invariant
                i <= 17,
                serial_chars@.len() > 20,
                v@ == serial_chars@.subrange(0, i as int),
            decreases 17 - i,
        {
            v.push(serial_chars[i]);
            i += 1;
            assert(v@ =~= serial_chars@.subrange(0, i as int));
        }
        v.push('.');
        v.push('.');
        v.push('.');
        proof {
            reveal_strlit("...");
        }
        assert(v@ =~= serial_text(config.charger_serial@));
        string_from_chars(&v)
    } else {
        config.charger_serial.clone()
    };
    let name = state.as_str();
    let len = name.unicode_len();
    proof {
        reveal_strlit("Off");
        reveal_strlit("Error");
        reveal_strlit("Available");
        reveal_strlit("Occupied");
        reveal_strlit("Charging");
        reveal_strlit("Authorizing");
    }
    let state_x = (DISPLAY_WIDTH - len as i32 * STATE_CHAR_WIDTH) / 2;
    let ip_line = match ip {
        Some((a, b, c, d)) => {
            let mut v: Vec<char> = Vec::new();
            push_decimal(&mut v, a);
            v.push('.');
            push_decimal(&mut v, b);
            v.push('.');
            push_decimal(&mut v, c);
            v.push('.');
            push_decimal(&mut v, d);
            assert(v@ =~= ip_text(ip));
            string_from_chars(&v)
        },
        None => "Not Connected".to_owned(),
    };
    let time = if clock.is_time_synced() {
        let date = clock.get_local_date_formatted(now, config.timezone_offset_hours);
        let t = clock.get_local_time_formatted(now, config.timezone_offset_hours);
        let mut v: Vec<char> = Vec::new();
        push_text(&mut v, date.as_str());
        v.push(' ');
        push_text(&mut v, t.as_str());
        assert(v@ =~= date@ + seq![' '] + t@);
        string_from_chars(&v)
    } else {
        "Time Not Synced".to_owned()
    };
    StatusLines { serial, state: name, state_x, ip: ip_line, time }
}

} // verus!
