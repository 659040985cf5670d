//! The protocol message layer: message ids, the state-to-status mapping, the
//! six outgoing calls, and the decisions that turn broadcast records into
//! calls placed on the outbound queue.
use vstd::prelude::*;
use crate::bindings::{
    authorize_json, boot_notification_json, encode_authorize, string_from_chars,
    encode_boot_notification, encode_heartbeat, encode_start_transaction,
    encode_status_notification, encode_stop_transaction, heartbeat_json, start_transaction_json,
    status_notification_json, stop_transaction_json,
};
use crate::bus::BroadcastRecord;
use crate::charger::{ChargerState, OutputEvent, DEFAULT_CONNECTOR_ID};
use crate::config::Config;
use crate::delivery::{PayloadQueue, QueueError, MAX_PAYLOAD_LEN, PAYLOAD_QUEUE_CAPACITY};
use crate::text::{
    decimal, lemma_decimal_injective, lemma_decimal_value, parse_in_range, write_u32_to_temp,
};

verus! {

/// Connector status as the protocol reports it.
#[derive(Debug, Clone, Copy, PartialEq, Eq, Structural)]
pub enum OcppStatus {
    Available,
    Preparing,
    Charging,
    Faulted,
    Unavailable,
}

/// The state-to-status mapping; `Authorizing` falls back to `Unavailable`.
pub open spec fn status_of(s: ChargerState) -> OcppStatus {
    match s {
        ChargerState::Available => OcppStatus::Available,
        ChargerState::Occupied => OcppStatus::Preparing,
        ChargerState::Charging => OcppStatus::Charging,
        ChargerState::Faulted => OcppStatus::Faulted,
        ChargerState::Off => OcppStatus::Unavailable,
        ChargerState::Authorizing => OcppStatus::Unavailable,
    }
}

pub fn charge_point_status(s: ChargerState) -> (r: OcppStatus)
    ensures
        r == status_of(s),
{
    match s {
        ChargerState::Available => OcppStatus::Available,
        ChargerState::Occupied => OcppStatus::Preparing,
        ChargerState::Charging => OcppStatus::Charging,
        ChargerState::Faulted => OcppStatus::Faulted,
        ChargerState::Off => OcppStatus::Unavailable,
        ChargerState::Authorizing => OcppStatus::Unavailable,
    }
}

/// The source of message ids: a 32-bit counter that starts at 1 and wraps.
pub struct MessageIds {
    next: u32,
}

impl MessageIds {
    /// The counter value that the next id is made of.
    pub closed spec fn spec_next(&self) -> u32 {
        self.next
    }

    pub fn new() -> (r: MessageIds)
        ensures
            r.spec_next() == 1,
    {
        MessageIds { next: 1 }
    }

    /// A fresh message id: the counter in decimal; the counter moves on by one.
    pub fn next_ocpp_message_id(&mut self) -> (r: String)
        ensures
            r@ == decimal(old(self).spec_next() as nat),
            final(self).spec_next() == old(self).spec_next().wrapping_add(1),
    {
        let n = self.next;
        self.next = n.wrapping_add(1);
        let mut digits: Vec<char> = Vec::new();
        write_u32_to_temp(&mut digits, n);
        assert(digits@ =~= decimal(n as nat));
        string_from_chars(&digits)
    }
}

/// Within any run of fewer than 2^32 ids the counter does not wrap, and two
/// different counter values never give the same id: message ids do not repeat.
pub proof fn lemma_message_ids_never_repeat(a: u32, b: u32)
    requires
        a != b,
    ensures
        decimal(a as nat) != decimal(b as nat),
{
    if decimal(a as nat) == decimal(b as nat) {
        lemma_decimal_injective(a as nat, b as nat);
    }
}

/// Message ids grow: the id made of a larger counter value reads back, as a
/// `u32`, to that larger value. Within a run of fewer than 2^32 ids the counter
/// does not wrap, so each id is numerically greater than every earlier one.
pub proof fn lemma_message_ids_increase(a: u32, b: u32)
    requires
        a < b,
    ensures
        parse_in_range(decimal(a as nat), false, 0, 0xffff_ffff) == Some(a as int),
        parse_in_range(decimal(b as nat), false, 0, 0xffff_ffff) == Some(b as int),
        decimal(a as nat) != decimal(b as nat),
{
    lemma_decimal_value(a as nat);
    lemma_decimal_value(b as nat);
    lemma_message_ids_never_repeat(a, b);
}

/// The ids of `n` successive calls made from counter value `start` (without
/// wrapping: `start + n <= 2^32`) are pairwise distinct and strictly
/// increasing as numbers.
pub proof fn lemma_run_of_ids(start: u32, n: nat)
    requires
        start + n <= 0x1_0000_0000,
    ensures
        forall|i: nat, j: nat|
            #![trigger decimal((start + i) as nat), decimal((start + j) as nat)]
            i < j < n ==> decimal((start + i) as nat) != decimal((start + j) as nat)
                && parse_in_range(decimal((start + i) as nat), false, 0, 0xffff_ffff) == Some(
                (start + i) as int,
            ) && parse_in_range(decimal((start + j) as nat), false, 0, 0xffff_ffff) == Some(
                (start + j) as int,
            ),
{
    assert forall|i: nat, j: nat|
        #![trigger decimal((start + i) as nat), decimal((start + j) as nat)]
        i < j < n implies decimal((start + i) as nat) != decimal((start + j) as nat)
            && parse_in_range(decimal((start + i) as nat), false, 0, 0xffff_ffff) == Some(
            (start + i) as int,
        ) && parse_in_range(decimal((start + j) as nat), false, 0, 0xffff_ffff) == Some(
            (start + j) as int,
        ) by {
        lemma_message_ids_increase((start + i) as u32, (start + j) as u32);
    }
}

/// Why an outgoing call did not reach the outbound queue.
#[derive(Debug, Clone, Copy, PartialEq, Eq, Structural)]
pub enum MessageError {
    /// The protocol library could not serialize the call.
    Encoding,
    /// The outbound queue refused the payload.
    Queue(QueueError),
}

/// Error code that status notifications report.
#[derive(Debug, Clone, Copy, PartialEq, Eq, Structural)]
pub enum OcppErrorCode {
    NoError,
}

/// Meter reading reported when a transaction starts.
pub const METER_START: u64 = 0;

/// Meter reading reported when a transaction stops.
pub const METER_STOP: u64 = 0;

pub fn boot_notification(id: &str, config: &Config, firmware: &str) -> (r: Result<Vec<u8>, MessageError>)
    ensures
        r is Ok,
        r matches Ok(b) ==> b@ == boot_notification_json(id@, config.charger_model@, config.charger_vendor@, config.charger_serial@, firmware@),
{
    match encode_boot_notification(id, config.charger_model.as_str(), config.charger_vendor.as_str(), config.charger_serial.as_str(), firmware) {
        Ok(b) => Ok(b),
        Err(_) => Err(MessageError::Encoding),
    }
}

pub fn heartbeat(id: &str) -> (r: Result<Vec<u8>, MessageError>)
    ensures
        r is Ok,
        r matches Ok(b) ==> b@ == heartbeat_json(id@),
{
    match encode_heartbeat(id) {
        Ok(b) => Ok(b),
        Err(_) => Err(MessageError::Encoding),
    }
}

pub fn authorize(id: &str, id_tag: &str) -> (r: Result<Vec<u8>, MessageError>)
    ensures
        r is Ok,
        r matches Ok(b) ==> b@ == authorize_json(id@, id_tag@),
{
    match encode_authorize(id, id_tag) {
        Ok(b) => Ok(b),
        Err(_) => Err(MessageError::Encoding),
    }
}

/// A status notification for `state` on the single connector, error code
/// `NoError`, through the state-to-status mapping.
pub fn status_notification(id: &str, state: ChargerState, timestamp: u32) -> (r: Result<Vec<u8>, MessageError>)
    ensures
        r is Ok,
        r matches Ok(b) ==> b@ == status_notification_json(id@, DEFAULT_CONNECTOR_ID, OcppErrorCode::NoError, status_of(state), timestamp),
{
    match encode_status_notification(id, DEFAULT_CONNECTOR_ID, OcppErrorCode::NoError, charge_point_status(state), timestamp) {
        Ok(b) => Ok(b),
        Err(_) => Err(MessageError::Encoding),
    }
}

/// A start transaction on the single connector, meter start `METER_START`.
pub fn start_transaction(id: &str, id_tag: &str, timestamp: u32) -> (r: Result<Vec<u8>, MessageError>)
    ensures
        r is Ok,
        r matches Ok(b) ==> b@ == start_transaction_json(id@, DEFAULT_CONNECTOR_ID, id_tag@, METER_START, timestamp),
{
    match encode_start_transaction(id, DEFAULT_CONNECTOR_ID, id_tag, METER_START, timestamp) {
        Ok(b) => Ok(b),
        Err(_) => Err(MessageError::Encoding),
    }
}

/// A stop transaction, meter stop `METER_STOP`.
pub fn stop_transaction(id: &str, transaction_id: i32, id_tag: &str, timestamp: u32) -> (r: Result<Vec<u8>, MessageError>)
    ensures
        r is Ok,
        r matches Ok(b) ==> b@ == stop_transaction_json(id@, transaction_id, id_tag@, METER_STOP, timestamp),
{
    match encode_stop_transaction(id, transaction_id, id_tag, METER_STOP, timestamp) {
        Ok(b) => Ok(b),
        Err(_) => Err(MessageError::Encoding),
    }
}

/// A call that the reactive side of the protocol layer decided to send.
#[derive(Debug, Clone, Copy, PartialEq, Eq, Structural)]
pub enum Request {
    BootNotification,
    Heartbeat,
    StatusNotification(ChargerState),
    Authorize,
    StartTransaction,
    /// Carries the transaction id stored on the charger. That id is not reset
    /// once the stop is queued: the management system matches the session by
    /// it, and the next start result replaces it.
    StopTransaction,
}

/// A status notification is due when the state is not the `Authorizing`
/// pseudo-state and differs from the state of the last notification.
pub open spec fn status_due(state: ChargerState, last: Option<ChargerState>) -> bool {
    state != ChargerState::Authorizing && last != Some(state)
}

/// The calls a broadcast record asks for, in this order: a status
/// notification when due; an authorization request when the state is
/// `Authorizing`; a start transaction when the outputs apply power; a stop
/// transaction when they remove it.
pub open spec fn requests_for(rec: (ChargerState, Seq<OutputEvent>), last: Option<ChargerState>) -> Seq<Request> {
    (if status_due(rec.0, last) {
        seq![Request::StatusNotification(rec.0)]
    } else {
        Seq::<Request>::empty()
    }) + (if rec.0 == ChargerState::Authorizing {
        seq![Request::Authorize]
    } else {
        Seq::<Request>::empty()
    }) + (if rec.1.contains(OutputEvent::ApplyPower) {
        seq![Request::StartTransaction]
    } else {
        Seq::<Request>::empty()
    }) + (if rec.1.contains(OutputEvent::RemovePower) {
        seq![Request::StopTransaction]
    } else {
        Seq::<Request>::empty()
    })
}

/// The text of the call `req` with message id `id`.
pub open spec fn request_json(
    req: Request,
    id: Seq<char>,
    config: Config,
    firmware: Seq<char>,
    transaction_id: i32,
    timestamp: u32,
) -> Seq<u8> {
    match req {
        Request::BootNotification => boot_notification_json(
            id,
            config.charger_model@,
            config.charger_vendor@,
            config.charger_serial@,
            firmware,
        ),
        Request::Heartbeat => heartbeat_json(id),
        Request::StatusNotification(s) => status_notification_json(
            id,
            DEFAULT_CONNECTOR_ID,
            OcppErrorCode::NoError,
            status_of(s),
            timestamp,
        ),
        Request::Authorize => authorize_json(id, config.ocpp_id_tag@),
        Request::StartTransaction => start_transaction_json(
            id,
            DEFAULT_CONNECTOR_ID,
            config.ocpp_id_tag@,
            METER_START,
            timestamp,
        ),
        Request::StopTransaction => stop_transaction_json(
            id,
            transaction_id,
            config.ocpp_id_tag@,
            METER_STOP,
            timestamp,
        ),
    }
}

/// The protocol side of the charge point: message ids, the state of the last
/// status notification, and the firmware version it reports.
pub struct OcppSession {
    ids: MessageIds,
    last_status: Option<ChargerState>,
    firmware: String,
}

impl OcppSession {
    pub closed spec fn next_id(&self) -> u32 {
        self.ids.spec_next()
    }

    pub closed spec fn last_status(&self) -> Option<ChargerState> {
        self.last_status
    }

    pub closed spec fn firmware(&self) -> Seq<char> {
        self.firmware@
    }

    pub fn new(firmware: &str) -> (r: OcppSession)
        ensures
            r.next_id() == 1,
            r.last_status() is None,
            r.firmware() == firmware@,
    {
        OcppSession { ids: MessageIds::new(), last_status: None, firmware: firmware.to_owned() }
    }

    /// The startup notification: sent whatever the state, and remembered as
    /// the last notified state.
    pub fn initial_status(&mut self, state: ChargerState) -> (r: Request)
        ensures
            r == Request::StatusNotification(state),
            final(self).last_status() == Some(state),
            final(self).next_id() == old(self).next_id(),
            final(self).firmware() == old(self).firmware(),
    {
        self.last_status = Some(state);
        Request::StatusNotification(state)
    }

    /// The calls that a broadcast record asks for.
    pub fn react(&mut self, rec: &BroadcastRecord) -> (r: Vec<Request>)
        ensures
            r@ == requests_for(rec@, old(self).last_status()),
            final(self).last_status() == if status_due(rec.state, old(self).last_status()) {
                Some(rec.state)
            } else {
                old(self).last_status()
            },
            final(self).next_id() == old(self).next_id(),
            final(self).firmware() == old(self).firmware(),
    {
        let mut r: Vec<Request> = Vec::new();
        let state = rec.state;
        let due = match self.last_status {
            Some(last) => state != ChargerState::Authorizing && last != state,
            None => state != ChargerState::Authorizing,
        };
        if due {
            r.push(Request::StatusNotification(state));
            self.last_status = Some(state);
        }
        if state == ChargerState::Authorizing {
            r.push(Request::Authorize);
        }
        if rec.has_output(OutputEvent::ApplyPower) {
            r.push(Request::StartTransaction);
        }
        if rec.has_output(OutputEvent::RemovePower) {
            r.push(Request::StopTransaction);
        }
        assert(r@ =~= requests_for(rec@, old(self).last_status));
        r
    }

    /// Builds the call `req` with a fresh message id and places it on the
    /// outbound queue. The id is used up whatever happens next.
    pub fn send(
        &mut self,
        req: Request,
        config: &Config,
        transaction_id: i32,
        timestamp: u32,
        outbound: &mut PayloadQueue,
    ) -> (r: Result<(), MessageError>)
        ensures
            final(self).next_id() == old(self).next_id().wrapping_add(1),
            final(self).last_status() == old(self).last_status(),
            final(self).firmware() == old(self).firmware(),
            r is Ok ==> final(outbound)@ == old(outbound)@.push(
                request_json(
                    req,
                    decimal(old(self).next_id() as nat),
                    *config,
                    old(self).firmware(),
                    transaction_id,
                    timestamp,
                ),
            ),
            r is Err ==> final(outbound)@ == old(outbound)@,
            request_json(
                req,
                decimal(old(self).next_id() as nat),
                *config,
                old(self).firmware(),
                transaction_id,
                timestamp,
            ).len() > MAX_PAYLOAD_LEN ==> r == Err::<(), MessageError>(
                MessageError::Queue(QueueError::TooLarge),
            ),
            request_json(
                req,
                decimal(old(self).next_id() as nat),
                *config,
                old(self).firmware(),
                transaction_id,
                timestamp,
            ).len() <= MAX_PAYLOAD_LEN && old(outbound)@.len() >= PAYLOAD_QUEUE_CAPACITY ==> r
                == Err::<(), MessageError>(MessageError::Queue(QueueError::Full)),
            request_json(
                req,
                decimal(old(self).next_id() as nat),
                *config,
                old(self).firmware(),
                transaction_id,
                timestamp,
            ).len() <= MAX_PAYLOAD_LEN && old(outbound)@.len() < PAYLOAD_QUEUE_CAPACITY ==> r is Ok,
    {
        let id = self.ids.next_ocpp_message_id();
        let tag = config.ocpp_id_tag.as_str();
        let built = match req {
            Request::BootNotification => boot_notification(id.as_str(), config, self.firmware.as_str()),
            Request::Heartbeat => heartbeat(id.as_str()),
            Request::StatusNotification(s) => status_notification(id.as_str(), s, timestamp),
            Request::Authorize => authorize(id.as_str(), tag),
            Request::StartTransaction => start_transaction(id.as_str(), tag, timestamp),
            Request::StopTransaction => stop_transaction(id.as_str(), transaction_id, tag, timestamp),
        };
        queue_call(built, outbound)
    }
}

/// Places a built call on the outbound queue: an encoding failure is passed
/// on; otherwise the payload is queued unless it is too large or the queue
/// is full.
pub fn queue_call(built: Result<Vec<u8>, MessageError>, outbound: &mut PayloadQueue) -> (r: Result<(), MessageError>)
    ensures
        built matches Err(e) ==> r == Err::<(), MessageError>(e) && final(outbound)@ == old(outbound)@,
        built matches Ok(p) ==> {
            &&& p@.len() > MAX_PAYLOAD_LEN ==> r == Err::<(), MessageError>(MessageError::Queue(QueueError::TooLarge))
            &&& p@.len() <= MAX_PAYLOAD_LEN && old(outbound)@.len() >= PAYLOAD_QUEUE_CAPACITY ==> r
                == Err::<(), MessageError>(MessageError::Queue(QueueError::Full))
            &&& p@.len() <= MAX_PAYLOAD_LEN && old(outbound)@.len() < PAYLOAD_QUEUE_CAPACITY ==> r is Ok
            &&& r is Ok ==> final(outbound)@ == old(outbound)@.push(p@)
            &&& r is Err ==> final(outbound)@ == old(outbound)@
        },
{
    match built {
        Ok(payload) => match outbound.try_send(payload.as_slice()) {
            Ok(()) => Ok(()),
            Err(e) => Err(MessageError::Queue(e)),
        },
        Err(e) => Err(e),
    }
}

} // verus!
