//! Trusted items: the calls that the library makes into std and into outside
//! crates, each with the contract that the library relies on.
use vstd::prelude::*;
use crate::charger::InputEvent;
use crate::ocpp::{OcppErrorCode, OcppStatus};
use crate::ntp::is_date_of;
use chrono::{DateTime, Datelike, FixedOffset, Offset, Timelike, Utc};
use ocpp_rs::v16::call::{
    Action, Authorize, BootNotification, Call, Heartbeat, StartTransaction, StatusNotification,
    StopTransaction,
};
use ocpp_rs::v16::data_types::DateTimeWrapper;
use ocpp_rs::v16::enums::ChargePointErrorCode;
use ocpp_rs::v16::enums::ChargePointStatus as Cps;
use ocpp_rs::v16::parse::{serialize_message, Message};

verus! {

/// What `core::str::from_utf8` makes of a byte string: its characters when the
/// bytes are valid UTF-8, nothing otherwise.
pub uninterp spec fn utf8_decode(b: Seq<u8>) -> Option<Seq<char>>;

/// Bytes below 0x80 (ASCII), each read as the character of that code.
pub open spec fn ascii_chars(b: Seq<u8>) -> Seq<char> {
    Seq::new(b.len(), |i: int| b[i] as char)
}

pub open spec fn is_ascii_bytes(b: Seq<u8>) -> bool {
    forall|i: int| 0 <= i < b.len() ==> #[trigger] b[i] < 0x80
}

/// Relies on `core::str::from_utf8` (and `str::chars`): the result depends on
/// the bytes alone; `None` exactly when they are not valid UTF-8. ASCII bytes
/// are valid UTF-8, one character each.
#[verifier::external_body]
pub(crate) fn decode_utf8(b: &[u8]) -> (r: Option<Vec<char>>)
    ensures
        match r {
            Some(v) => utf8_decode(b@) == Some(v@),
            None => utf8_decode(b@) is None,
        },
        is_ascii_bytes(b@) ==> r is Some && r.unwrap()@ == ascii_chars(b@),
{
    core::str::from_utf8(b).ok().map(|s| s.chars().collect())
}


/// The bounded FIFO (capacity 10) that holds the state machine's pending
/// input events: an `embassy_sync` channel, hidden from the verifier. Verus
/// cannot declare `Channel` itself, whose mutex parameter is bound by an
/// outside trait.
#[verifier::external_body]
pub struct InputChannel {
    inner: embassy_sync::channel::Channel<
        embassy_sync::blocking_mutex::raw::NoopRawMutex,
        InputEvent,
        10,
    >,
}

/// The events queued in an input channel, oldest first.
pub uninterp spec fn queued_inputs(q: InputChannel) -> Seq<InputEvent>;

/// Relies on `embassy_sync::channel::Channel::new`: a new channel is empty.
#[verifier::external_body]
pub(crate) fn input_channel_new() -> (r: InputChannel)
    ensures
        queued_inputs(r) == Seq::<InputEvent>::empty(),
{
    InputChannel { inner: embassy_sync::channel::Channel::new() }
}

/// Relies on `embassy_sync::channel::Channel::try_send`: the event is pushed at
/// the back unless the channel already holds its capacity (10), in which case
/// it is handed back (`TrySendError::Full`) and the channel is unchanged.
#[verifier::external_body]
pub(crate) fn input_channel_try_send(q: &mut InputChannel, e: InputEvent) -> (r: bool)
    ensures
        queued_inputs(*old(q)).len() < 10 ==> r && queued_inputs(*final(q)) == queued_inputs(
            *old(q),
        ).push(e),
        queued_inputs(*old(q)).len() >= 10 ==> !r && queued_inputs(*final(q)) == queued_inputs(
            *old(q),
        ),
{
    q.inner.try_send(e).is_ok()
}

/// Relies on `embassy_sync::channel::Channel::try_receive`: pops the oldest
/// event, or reports `TryReceiveError::Empty` on an empty channel.
#[verifier::external_body]
pub(crate) fn input_channel_try_receive(q: &mut InputChannel) -> (r: Option<InputEvent>)
    ensures
        queued_inputs(*old(q)).len() == 0 ==> r is None && queued_inputs(*final(q)) == queued_inputs(
            *old(q),
        ),
        queued_inputs(*old(q)).len() > 0 ==> r == Some(queued_inputs(*old(q))[0]) && queued_inputs(
            *final(q),
        ) == queued_inputs(*old(q)).drop_first(),
{
    q.inner.try_receive().ok()
}

/// Relies on `embassy_sync::channel::Channel::clear`: removes every event.
#[verifier::external_body]
pub(crate) fn input_channel_clear(q: &mut InputChannel)
    ensures
        queued_inputs(*final(q)) == Seq::<InputEvent>::empty(),
{
    q.inner.clear()
}

/// Relies on `embassy_sync::channel::Channel::len`: the number of queued events.
#[verifier::external_body]
pub(crate) fn input_channel_len(q: &InputChannel) -> (r: usize)
    ensures
        r == queued_inputs(*q).len(),
{
    q.inner.len()
}


/// A bounded FIFO (capacity 5) of protocol payloads of at most 2048 bytes each:
/// an `embassy_sync` channel of `heapless` vectors, hidden from the verifier.
#[verifier::external_body]
pub struct PayloadChannel {
    inner: embassy_sync::channel::Channel<
        embassy_sync::blocking_mutex::raw::NoopRawMutex,
        heapless::Vec<u8, 2048>,
        5,
    >,
}

/// The payloads queued in a payload channel, oldest first, each as its bytes.
pub uninterp spec fn queued_payloads(q: PayloadChannel) -> Seq<Seq<u8>>;

/// Relies on `embassy_sync::channel::Channel::new`: a new channel is empty.
#[verifier::external_body]
pub(crate) fn payload_channel_new() -> (r: PayloadChannel)
    ensures
        queued_payloads(r) == Seq::<Seq<u8>>::empty(),
{
    PayloadChannel { inner: embassy_sync::channel::Channel::new() }
}

/// Relies on `heapless::Vec::from_slice` (which accepts any slice of at most
/// 2048 bytes) and `embassy_sync::channel::Channel::try_send`: the payload is
/// pushed at the back unless 5 are already queued, in which case the channel
/// is unchanged.
#[verifier::external_body]
pub(crate) fn payload_channel_try_send(q: &mut PayloadChannel, payload: &[u8]) -> (r: bool)
    requires
        payload@.len() <= 2048,
    ensures
        queued_payloads(*old(q)).len() < 5 ==> r && queued_payloads(*final(q)) == queued_payloads(
            *old(q),
        ).push(payload@),
        queued_payloads(*old(q)).len() >= 5 ==> !r && queued_payloads(*final(q))
            == queued_payloads(*old(q)),
{
    match heapless::Vec::from_slice(payload) {
        Ok(v) => q.inner.try_send(v).is_ok(),
        Err(()) => false,
    }
}

/// Relies on `embassy_sync::channel::Channel::try_receive`: pops the oldest
/// payload (a `heapless::Vec<u8, 2048>`, so at most 2048 bytes), or reports `TryReceiveError::Empty` on an empty channel.
#[verifier::external_body]
pub(crate) fn payload_channel_try_receive(q: &mut PayloadChannel) -> (r: Option<Vec<u8>>)
    ensures
        queued_payloads(*old(q)).len() == 0 ==> r is None && queued_payloads(*final(q))
            == queued_payloads(*old(q)),
        queued_payloads(*old(q)).len() > 0 ==> r is Some && r.unwrap()@ == queued_payloads(
            *old(q),
        )[0] && queued_payloads(*final(q)) == queued_payloads(*old(q)).drop_first(),
        r matches Some(v) ==> v@.len() <= 2048,
{
    q.inner.try_receive().ok().map(|v| v.to_vec())
}

/// Relies on `embassy_sync::channel::Channel::len`: the number of queued payloads.
#[verifier::external_body]
pub(crate) fn payload_channel_len(q: &PayloadChannel) -> (r: usize)
    ensures
        r == queued_payloads(*q).len(),
{
    q.inner.len()
}


#[verifier::external_type_specification]
#[verifier::external_body]
pub struct ExOcppError(ocpp_rs::errors::Error);

/// OCPP-J text of a `Heartbeat` call with message id `id`.
pub uninterp spec fn heartbeat_json(id: Seq<char>) -> Seq<u8>;

/// OCPP-J text of an `Authorize` call.
pub uninterp spec fn authorize_json(id: Seq<char>, id_tag: Seq<char>) -> Seq<u8>;

/// OCPP-J text of a `StatusNotification` call at `timestamp` (Unix seconds).
pub uninterp spec fn status_notification_json(
    id: Seq<char>,
    connector_id: u32,
    error_code: OcppErrorCode,
    status: OcppStatus,
    timestamp: u32,
) -> Seq<u8>;

/// OCPP-J text of a `StartTransaction` call.
pub uninterp spec fn start_transaction_json(
    id: Seq<char>,
    connector_id: u32,
    id_tag: Seq<char>,
    meter_start: u64,
    timestamp: u32,
) -> Seq<u8>;

/// OCPP-J text of a `StopTransaction` call.
pub uninterp spec fn stop_transaction_json(
    id: Seq<char>,
    transaction_id: i32,
    id_tag: Seq<char>,
    meter_stop: u64,
    timestamp: u32,
) -> Seq<u8>;

/// OCPP-J text of a `BootNotification` call.
pub uninterp spec fn boot_notification_json(
    id: Seq<char>,
    model: Seq<char>,
    vendor: Seq<char>,
    serial: Seq<char>,
    firmware: Seq<char>,
) -> Seq<u8>;

// Every encoder below succeeds: `serialize_message` fails only on a message
// type that differs from the one `Call::new` sets, or on a serde_json error,
// and these calls hold only strings, integers, enums and `DateTimeWrapper`
// (serialized as a string).

/// Relies on `ocpp_rs::v16::parse::serialize_message` on a `Heartbeat` call:
/// the text depends on the id alone.
#[verifier::external_body]
pub(crate) fn encode_heartbeat(id: &str) -> (r: Result<Vec<u8>, ocpp_rs::errors::Error>)
    ensures
        r is Ok,
        r matches Ok(b) ==> b@ == heartbeat_json(id@),
{
    let call = Call::new(id.into(), Action::Heartbeat(Heartbeat {}));
    serialize_message(&Message::Call(call)).map(String::into_bytes)
}

/// Relies on `ocpp_rs::v16::parse::serialize_message` on an `Authorize` call.
#[verifier::external_body]
pub(crate) fn encode_authorize(id: &str, id_tag: &str) -> (r: Result<Vec<u8>, ocpp_rs::errors::Error>)
    ensures
        r is Ok,
        r matches Ok(b) ==> b@ == authorize_json(id@, id_tag@),
{
    let action = Action::Authorize(Authorize { id_tag: id_tag.into() });
    serialize_message(&Message::Call(Call::new(id.into(), action))).map(String::into_bytes)
}

/// Relies on `ocpp_rs::v16::parse::serialize_message` on a `StatusNotification`
/// call, and on `chrono::DateTime::from_timestamp`, which accepts every `u32`.
#[verifier::external_body]
pub(crate) fn encode_status_notification(
    id: &str,
    connector_id: u32,
    error_code: OcppErrorCode,
    status: OcppStatus,
    timestamp: u32,
) -> (r: Result<Vec<u8>, ocpp_rs::errors::Error>)
    ensures
        r is Ok,
        r matches Ok(b) ==> b@ == status_notification_json(id@, connector_id, error_code, status, timestamp),
{
    let error_code = match error_code {
        OcppErrorCode::NoError => ChargePointErrorCode::NoError,
    };
    let status = match status {
        OcppStatus::Available => Cps::Available,
        OcppStatus::Preparing => Cps::Preparing,
        OcppStatus::Charging => Cps::Charging,
        OcppStatus::Faulted => Cps::Faulted,
        OcppStatus::Unavailable => Cps::Unavailable,
    };
    let time = Some(DateTimeWrapper::new(DateTime::from_timestamp(timestamp as i64, 0).unwrap_or_default()));
    let body = StatusNotification { connector_id, error_code, status, timestamp: time, ..Default::default() };
    serialize_message(&Message::Call(Call::new(id.into(), Action::StatusNotification(body)))).map(String::into_bytes)
}

/// Relies on `ocpp_rs::v16::parse::serialize_message` on a `StartTransaction`
/// call, and on `chrono::DateTime::from_timestamp`, which accepts every `u32`.
#[verifier::external_body]
pub(crate) fn encode_start_transaction(
    id: &str,
    connector_id: u32,
    id_tag: &str,
    meter_start: u64,
    timestamp: u32,
) -> (r: Result<Vec<u8>, ocpp_rs::errors::Error>)
    ensures
        r is Ok,
        r matches Ok(b) ==> b@ == start_transaction_json(id@, connector_id, id_tag@, meter_start, timestamp),
{
    let time = DateTimeWrapper::new(DateTime::from_timestamp(timestamp as i64, 0).unwrap_or_default());
    let body = StartTransaction { connector_id, id_tag: id_tag.into(), meter_start, timestamp: time, reservation_id: None };
    serialize_message(&Message::Call(Call::new(id.into(), Action::StartTransaction(body)))).map(String::into_bytes)
}

/// Relies on `ocpp_rs::v16::parse::serialize_message` on a `StopTransaction`
/// call, and on `chrono::DateTime::from_timestamp`, which accepts every `u32`.
#[verifier::external_body]
pub(crate) fn encode_stop_transaction(
    id: &str,
    transaction_id: i32,
    id_tag: &str,
    meter_stop: u64,
    timestamp: u32,
) -> (r: Result<Vec<u8>, ocpp_rs::errors::Error>)
    ensures
        r is Ok,
        r matches Ok(b) ==> b@ == stop_transaction_json(id@, transaction_id, id_tag@, meter_stop, timestamp),
{
    let time = DateTimeWrapper::new(DateTime::from_timestamp(timestamp as i64, 0).unwrap_or_default());
    let body = StopTransaction { transaction_id, id_tag: Some(id_tag.into()), meter_stop, timestamp: time, ..Default::default() };
    serialize_message(&Message::Call(Call::new(id.into(), Action::StopTransaction(body)))).map(String::into_bytes)
}

/// Relies on `ocpp_rs::v16::parse::serialize_message` on a `BootNotification` call.
#[verifier::external_body]
pub(crate) fn encode_boot_notification(id: &str, model: &str, vendor: &str, serial: &str, firmware: &str) -> (r: Result<Vec<u8>, ocpp_rs::errors::Error>)
    ensures
        r is Ok,
        r matches Ok(b) ==> b@ == boot_notification_json(id@, model@, vendor@, serial@, firmware@),
{
    let body = BootNotification { charge_point_model: model.into(), charge_point_vendor: vendor.into(), charge_box_serial_number: Some(serial.into()), firmware_version: Some(firmware.into()), ..Default::default() };
    serialize_message(&Message::Call(Call::new(id.into(), Action::BootNotification(body)))).map(String::into_bytes)
}

/// Relies on `String`'s `FromIterator<char>`: the string holds exactly the characters.
#[verifier::external_body]
pub(crate) fn string_from_chars(v: &Vec<char>) -> (r: String)
    ensures
        r@ == v@,
{
    v.iter().collect()
}




/// Seconds since the Unix epoch, local time, of Unix time `ts` at an offset of
/// `offset_secs`; an offset of a day or more counts as none.
pub open spec fn local_seconds(ts: u32, offset_secs: i32) -> int {
    if -86400 < offset_secs < 86400 {
        ts as int + offset_secs as int
    } else {
        ts as int
    }
}

/// Relies on `chrono::FixedOffset::east_opt` (an offset is valid strictly
/// within one day, else UTC is used here) and on `DateTime::with_timezone`:
/// the local calendar date and time of Unix time `ts` at that offset.
#[verifier::external_body]
pub(crate) fn local_time_parts(ts: u32, offset_secs: i32) -> (r: (i32, u32, u32, u32, u32, u32))
    ensures
        r.3 as int == (local_seconds(ts, offset_secs) % 86400) / 3600,
        r.4 as int == (local_seconds(ts, offset_secs) % 3600) / 60,
        r.5 as int == local_seconds(ts, offset_secs) % 60,
        local_seconds(ts, offset_secs) >= 0 ==> is_date_of(
            local_seconds(ts, offset_secs) / 86400,
            (r.0 as u32, r.1, r.2),
        ),
{
    let offset = FixedOffset::east_opt(offset_secs).unwrap_or(Utc.fix());
    let t = DateTime::from_timestamp(ts as i64, 0).unwrap_or_default().with_timezone(&offset);
    (t.year(), t.month(), t.day(), t.hour(), t.minute(), t.second())
}

} // verus!
