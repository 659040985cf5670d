//! Interpretation of inbound protocol payloads ("call results").
//!
//! A payload is expected to be `[type-code, message-type, payload]`. Only type
//! code 3 is handled; the message type is matched against the known action
//! names and the fields that matter are found by searching the payload text.
//! Anything else is ignored and never produces an input event.
use vstd::prelude::*;
use crate::bindings::{decode_utf8, utf8_decode};
use crate::charger::InputEvent;
use crate::text::{
    drop_char, drop_ws, find_char, find_either, find_in, find_str, parse_in_range,
    parse_int_window, skip_char, skip_ws, trim_char_window, trim_window, window_eq,
};

verus! {

/// What an inbound payload asks of the charge point.
#[derive(Debug, Clone, Copy, PartialEq, Eq, Structural)]
pub enum ResponseEffect {
    /// Nothing: an unknown, malformed or purely informative payload.
    Ignored,
    /// An input event for the state machine.
    Input(InputEvent),
    /// The transaction id that the management system assigned.
    TransactionStarted(i32),
}

pub open spec fn status_marker() -> Seq<char> {
    "\"status\":\""@
}

pub open spec fn transaction_marker() -> Seq<char> {
    "\"transactionId\":"@
}

/// Effect of an `Authorize` result whose payload is the window `[lo, hi)` of `t`:
/// the quoted value after `"status":"` decides, `Accepted` or anything else.
pub open spec fn authorize_effect(t: Seq<char>, lo: int, hi: int) -> ResponseEffect {
    match find_in(t, status_marker(), lo, hi) {
        Some(s) => {
            let p = s + status_marker().len();
            match find_either(t, '"', '"', p, hi) {
                Some(e) => if t.subrange(p, e) == "Accepted"@ {
                    ResponseEffect::Input(InputEvent::Accepted)
                } else {
                    ResponseEffect::Input(InputEvent::Rejected)
                },
                None => ResponseEffect::Ignored,
            }
        },
        None => ResponseEffect::Ignored,
    }
}

/// Effect of a `StartTransaction` result whose payload is the window `[lo, hi)`
/// of `t`: the integer after `"transactionId":`, up to the next `,` or `}`.
pub open spec fn start_transaction_effect(t: Seq<char>, lo: int, hi: int) -> ResponseEffect {
    match find_in(t, transaction_marker(), lo, hi) {
        Some(s) => {
            let p = s + transaction_marker().len();
            match find_either(t, ',', '}', p, hi) {
                Some(e) => match parse_in_range(t.subrange(p, e), true, -0x8000_0000, 0x7fff_ffff) {
                    Some(v) => ResponseEffect::TransactionStarted(v as i32),
                    None => ResponseEffect::Ignored,
                },
                None => ResponseEffect::Ignored,
            }
        },
        None => ResponseEffect::Ignored,
    }
}

/// The message type of the window `[lo, hi)`: whitespace trimmed, then quotes.
pub open spec fn message_type(t: Seq<char>, lo: int, hi: int) -> Seq<char> {
    let a = skip_ws(t, lo, hi);
    let b = drop_ws(t, a, hi);
    let a2 = skip_char(t, '"', a, b);
    let b2 = drop_char(t, '"', a2, b);
    t.subrange(a2, b2)
}

/// Effect of an inbound payload text.
pub open spec fn response_effect(t: Seq<char>) -> ResponseEffect {
    if t.len() >= 2 && t[0] == '[' && t[t.len() - 1] == ']' {
        let hi = t.len() - 1;
        match find_either(t, ',', ',', 1, hi) {
            Some(c1) => match find_either(t, ',', ',', c1 + 1, hi) {
                Some(c2) => if parse_in_range(t.subrange(1, c1), false, 0, 255) == Some(3int) {
                    let kind = message_type(t, c1 + 1, c2);
                    if kind == "Authorize"@ {
                        authorize_effect(t, c2 + 1, hi)
                    } else if kind == "StartTransaction"@ {
                        start_transaction_effect(t, c2 + 1, hi)
                    } else {
                        ResponseEffect::Ignored
                    }
                } else {
                    ResponseEffect::Ignored
                },
                None => ResponseEffect::Ignored,
            },
            None => ResponseEffect::Ignored,
        }
    } else {
        ResponseEffect::Ignored
    }
}

/// Effect of an inbound payload as bytes: bytes that are not UTF-8 are ignored.
pub open spec fn payload_effect(b: Seq<u8>) -> ResponseEffect {
    match utf8_decode(b) {
        Some(t) => response_effect(t),
        None => ResponseEffect::Ignored,
    }
}

fn authorize_result(t: &Vec<char>, lo: usize, hi: usize) -> (r: ResponseEffect)
    requires
        lo <= hi <= t@.len(),
    ensures
        r == authorize_effect(t@, lo as int, hi as int),
{
    let marker = "\"status\":\"";
    match find_str(t, marker, lo, hi) {
        Some(s) => {
            let p = s + marker.unicode_len();
            match find_char(t, '"', '"', p, hi) {
                Some(e) => if window_eq(t, p, e, "Accepted") {
                    ResponseEffect::Input(InputEvent::Accepted)
                } else {
                    ResponseEffect::Input(InputEvent::Rejected)
                },
                None => ResponseEffect::Ignored,
            }
        },
        None => ResponseEffect::Ignored,
    }
}

fn start_transaction_result(t: &Vec<char>, lo: usize, hi: usize) -> (r: ResponseEffect)
    requires
        lo <= hi <= t@.len(),
    ensures
        r == start_transaction_effect(t@, lo as int, hi as int),
{
    let marker = "\"transactionId\":";
    match find_str(t, marker, lo, hi) {
        Some(s) => {
            let p = s + marker.unicode_len();
            match find_char(t, ',', '}', p, hi) {
                Some(e) => match parse_int_window(t, p, e, true, -0x8000_0000, 0x7fff_ffff) {
                    Some(v) => ResponseEffect::TransactionStarted(v as i32),
                    None => ResponseEffect::Ignored,
                },
                None => ResponseEffect::Ignored,
            }
        },
        None => ResponseEffect::Ignored,
    }
}

/// Interprets an inbound payload text.
pub fn parse_response(t: &Vec<char>) -> (r: ResponseEffect)
    ensures
        r == response_effect(t@),
{
    let n = t.len();
    if n < 2 || t[0] != '[' || t[n - 1] != ']' {
        return ResponseEffect::Ignored;
    }
    let hi = n - 1;
    let c1 = match find_char(t, ',', ',', 1, hi) {
        Some(c) => c,
        None => return ResponseEffect::Ignored,
    };
    let c2 = match find_char(t, ',', ',', c1 + 1, hi) {
        Some(c) => c,
        None => return ResponseEffect::Ignored,
    };
    match parse_int_window(t, 1, c1, false, 0, 255) {
        Some(code) => if code != 3 {
            return ResponseEffect::Ignored;
        },
        None => return ResponseEffect::Ignored,
    }
    let (a, b) = trim_window(t, c1 + 1, c2);
    let (a2, b2) = trim_char_window(t, '"', a, b);
    if window_eq(t, a2, b2, "Authorize") {
        authorize_result(t, c2 + 1, hi)
    } else if window_eq(t, a2, b2, "StartTransaction") {
        start_transaction_result(t, c2 + 1, hi)
    } else {
        ResponseEffect::Ignored
    }
}

/// Interprets an inbound payload as it came off the transport.
pub fn decode_response(payload: &[u8]) -> (r: ResponseEffect)
    ensures
        r == payload_effect(payload@),
{
    match decode_utf8(payload) {
        Some(t) => parse_response(&t),
        None => ResponseEffect::Ignored,
    }
}

} // verus!
