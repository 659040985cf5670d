//! Decisions of the peripheral reactors: each reads broadcast records (or a
//! sensor level) and decides a pin level or an input event. Driving the pins
//! is left to the board.
use vstd::prelude::*;
use crate::bus::BroadcastRecord;
use crate::charger::{ChargerState, InputEvent, OutputEvent};

verus! {

/// Level of the charging LED pin at startup: high while charging.
pub fn initial_led_level(state: ChargerState) -> (r: bool)
    ensures
        r == (state == ChargerState::Charging),
{
    state == ChargerState::Charging
}

/// Level of the charging LED pin after a broadcast record (the LED is wired
/// active-low once running: low while charging, high otherwise).
pub fn led_level(rec: &BroadcastRecord) -> (r: bool)
    ensures
        r == (rec.state != ChargerState::Charging),
{
    rec.state != ChargerState::Charging
}

/// The relay closes only on a record that is `Charging` and applies power;
/// any other record opens it.
pub fn relay_closed(rec: &BroadcastRecord) -> (r: bool)
    ensures
        r == (rec.state == ChargerState::Charging && rec.outputs@.contains(OutputEvent::ApplyPower)),
{
    rec.state == ChargerState::Charging && rec.has_output(OutputEvent::ApplyPower)
}

/// Cable lock: `Some(true)` locks (the outputs hold `Lock`), `Some(false)`
/// unlocks (they hold `Unlock` and not `Lock`), `None` leaves it as it is.
pub fn lock_command(rec: &BroadcastRecord) -> (r: Option<bool>)
    ensures
        rec.outputs@.contains(OutputEvent::Lock) ==> r == Some(true),
        !rec.outputs@.contains(OutputEvent::Lock) && rec.outputs@.contains(OutputEvent::Unlock) ==> r
            == Some(false),
        !rec.outputs@.contains(OutputEvent::Lock) && !rec.outputs@.contains(OutputEvent::Unlock) ==> r
            is None,
{
    if rec.has_output(OutputEvent::Lock) {
        Some(true)
    } else if rec.has_output(OutputEvent::Unlock) {
        Some(false)
    } else {
        None
    }
}

/// The cable switch pulls its input low while a cable is plugged in.
pub fn cable_event(input_low: bool) -> (r: InputEvent)
    ensures
        input_low ==> r == InputEvent::InsertCable,
        !input_low ==> r == InputEvent::RemoveCable,
{
    if input_low {
        InputEvent::InsertCable
    } else {
        InputEvent::RemoveCable
    }
}

/// The state probed at boot from the cable switch.
pub fn boot_state(input_low: bool) -> (r: ChargerState)
    ensures
        input_low ==> r == ChargerState::Occupied,
        !input_low ==> r == ChargerState::Available,
{
    if input_low {
        ChargerState::Occupied
    } else {
        ChargerState::Available
    }
}

} // verus!
