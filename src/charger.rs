use vstd::prelude::*;

verus! {

/// Connector id used in every protocol message: the charge point has a single connector.
pub const DEFAULT_CONNECTOR_ID: u32 = 0;

/// An event fed to the state machine.
#[derive(Debug, Clone, Copy, PartialEq, Eq, Structural)]
pub enum InputEvent {
    InsertCable,
    RemoveCable,
    SwipeDetected,
    Accepted,
    Rejected,
    /// "No event": produced by the response parser when a payload yields nothing.
    NoEvent,
}

/// A side effect that a transition authorizes.
#[derive(Debug, Clone, Copy, PartialEq, Eq, Structural)]
pub enum OutputEvent {
    Lock,
    Unlock,
    ApplyPower,
    RemovePower,
    ShowRejected,
}

/// The charge point's state.
#[derive(Debug, Clone, Copy, PartialEq, Eq, Structural)]
pub enum ChargerState {
    Off,
    Faulted,
    Available,
    Occupied,
    Charging,
    Authorizing,
}

impl Default for ChargerState {
    fn default() -> (r: Self)
        ensures
            r == ChargerState::Off,
    {
        ChargerState::Off
    }
}

/// Human-readable name of a state.
pub open spec fn state_name(s: ChargerState) -> Seq<char> {
    match s {
        ChargerState::Off => "Off"@,
        ChargerState::Faulted => "Error"@,
        ChargerState::Available => "Available"@,
        ChargerState::Occupied => "Occupied"@,
        ChargerState::Charging => "Charging"@,
        ChargerState::Authorizing => "Authorizing"@,
    }
}

impl ChargerState {
    pub fn is_operational(&self) -> (r: bool)
        ensures
            r == (*self == ChargerState::Available || *self == ChargerState::Occupied || *self
                == ChargerState::Charging),
    {
        matches!(self, ChargerState::Available | ChargerState::Occupied | ChargerState::Charging)
    }

    pub fn is_charging(&self) -> (r: bool)
        ensures
            r == (*self == ChargerState::Charging),
    {
        matches!(self, ChargerState::Charging)
    }

    /// A cable is plugged in: occupied or charging.
    pub fn is_occupied(&self) -> (r: bool)
        ensures
            r == (*self == ChargerState::Occupied || *self == ChargerState::Charging),
    {
        matches!(self, ChargerState::Occupied | ChargerState::Charging)
    }

    pub fn is_available(&self) -> (r: bool)
        ensures
            r == (*self == ChargerState::Available),
    {
        matches!(self, ChargerState::Available)
    }

    pub fn has_error(&self) -> (r: bool)
        ensures
            r == (*self == ChargerState::Faulted),
    {
        matches!(self, ChargerState::Faulted)
    }

    pub fn as_str(&self) -> (r: &'static str)
        ensures
            r@ == state_name(*self),
    {
        match self {
            ChargerState::Off => "Off",
            ChargerState::Faulted => "Error",
            ChargerState::Available => "Available",
            ChargerState::Occupied => "Occupied",
            ChargerState::Charging => "Charging",
            ChargerState::Authorizing => "Authorizing",
        }
    }
}

/// The transition table: new state and the output events it authorizes.
/// Every pair that the table does not list leads to `Faulted` with no outputs;
/// from `Faulted` any input leads back to `Available` (after the recovery delay,
/// which the state machine handler enforces).
pub open spec fn next_state(s: ChargerState, i: InputEvent) -> (ChargerState, Seq<OutputEvent>) {
    match (s, i) {
        (ChargerState::Available, InputEvent::InsertCable) => (ChargerState::Occupied, seq![]),
        (ChargerState::Occupied, InputEvent::SwipeDetected) => (ChargerState::Authorizing, seq![]),
        (ChargerState::Authorizing, InputEvent::Accepted) => (
            ChargerState::Charging,
            seq![OutputEvent::ApplyPower, OutputEvent::Lock],
        ),
        (ChargerState::Authorizing, InputEvent::Rejected) => (
            ChargerState::Occupied,
            seq![OutputEvent::ShowRejected],
        ),
        (ChargerState::Charging, InputEvent::SwipeDetected) => (
            ChargerState::Occupied,
            seq![OutputEvent::RemovePower, OutputEvent::Unlock],
        ),
        (ChargerState::Occupied, InputEvent::RemoveCable) => (ChargerState::Available, seq![]),
        (ChargerState::Charging, InputEvent::RemoveCable) => (
            ChargerState::Faulted,
            seq![OutputEvent::RemovePower, OutputEvent::Unlock],
        ),
        (ChargerState::Faulted, _) => (ChargerState::Available, seq![]),
        _ => (ChargerState::Faulted, seq![]),
    }
}

/// Whether the pair is one of the rows of the transition table.
pub open spec fn is_listed(s: ChargerState, i: InputEvent) -> bool {
    match (s, i) {
        (ChargerState::Available, InputEvent::InsertCable) => true,
        (ChargerState::Occupied, InputEvent::SwipeDetected) => true,
        (ChargerState::Authorizing, InputEvent::Accepted) => true,
        (ChargerState::Authorizing, InputEvent::Rejected) => true,
        (ChargerState::Charging, InputEvent::SwipeDetected) => true,
        (ChargerState::Occupied, InputEvent::RemoveCable) => true,
        (ChargerState::Charging, InputEvent::RemoveCable) => true,
        (ChargerState::Faulted, _) => true,
        _ => false,
    }
}

/// Executable form of the transition table.
pub fn compute_transition(s: ChargerState, i: InputEvent) -> (r: (ChargerState, Vec<OutputEvent>))
    ensures
        r.0 == next_state(s, i).0,
        r.1@ == next_state(s, i).1,
        r.1@.len() <= 2,
{
    match (s, i) {
        (ChargerState::Available, InputEvent::InsertCable) => (ChargerState::Occupied, Vec::new()),
        (ChargerState::Occupied, InputEvent::SwipeDetected) => (
            ChargerState::Authorizing,
            Vec::new(),
        ),
        (ChargerState::Authorizing, InputEvent::Accepted) => (
            ChargerState::Charging,
            vec![OutputEvent::ApplyPower, OutputEvent::Lock],
        ),
        (ChargerState::Authorizing, InputEvent::Rejected) => (
            ChargerState::Occupied,
            vec![OutputEvent::ShowRejected],
        ),
        (ChargerState::Charging, InputEvent::SwipeDetected) => (
            ChargerState::Occupied,
            vec![OutputEvent::RemovePower, OutputEvent::Unlock],
        ),
        (ChargerState::Occupied, InputEvent::RemoveCable) => (ChargerState::Available, Vec::new()),
        (ChargerState::Charging, InputEvent::RemoveCable) => (
            ChargerState::Faulted,
            vec![OutputEvent::RemovePower, OutputEvent::Unlock],
        ),
        (ChargerState::Faulted, _) => (ChargerState::Available, Vec::new()),
        _ => (ChargerState::Faulted, Vec::new()),
    }
}

/// The charge point entity: its authoritative state and the current
/// transaction id (zero or negative: no active transaction).
pub struct Charger {
    state: ChargerState,
    transaction_id: i32,
}

impl Charger {
    pub closed spec fn spec_state(&self) -> ChargerState {
        self.state
    }

    pub closed spec fn spec_transaction_id(&self) -> i32 {
        self.transaction_id
    }

    /// A charger in the startup state `Off`, with no transaction.
    pub fn new() -> (r: Charger)
        ensures
            r.spec_state() == ChargerState::Off,
            r.spec_transaction_id() == 0,
    {
        Charger { state: ChargerState::Off, transaction_id: 0 }
    }

    pub fn get_state(&self) -> (r: ChargerState)
        ensures
            r == self.spec_state(),
    {
        self.state
    }

    pub fn set_state(&mut self, new_state: ChargerState)
        ensures
            final(self).spec_state() == new_state,
            final(self).spec_transaction_id() == old(self).spec_transaction_id(),
    {
        self.state = new_state;
    }

    pub fn get_transaction_id(&self) -> (r: i32)
        ensures
            r == self.spec_transaction_id(),
    {
        self.transaction_id
    }

    pub fn set_transaction_id(&mut self, new_id: i32)
        ensures
            final(self).spec_transaction_id() == new_id,
            final(self).spec_state() == old(self).spec_state(),
    {
        self.transaction_id = new_id;
    }

    /// Applies one input to the current state, commits the new state (even
    /// when unchanged) and returns it with the output events it authorizes.
    pub fn transition(&mut self, charger_input: InputEvent) -> (r: (ChargerState, Vec<OutputEvent>))
        ensures
            r.0 == next_state(old(self).spec_state(), charger_input).0,
            r.1@ == next_state(old(self).spec_state(), charger_input).1,
            r.1@.len() <= 2,
            final(self).spec_state() == r.0,
            final(self).spec_transaction_id() == old(self).spec_transaction_id(),
    {
        let r = compute_transition(self.state, charger_input);
        self.state = r.0;
        r
    }
}

impl Default for Charger {
    fn default() -> (r: Self)
        ensures
            r.spec_state() == ChargerState::Off,
            r.spec_transaction_id() == 0,
    {
        Charger::new()
    }
}

/// Fail-safe default: every (state, input) pair that the transition table
/// does not list leads to `Faulted`, with no output events.
pub proof fn lemma_unlisted_pairs_fault(s: ChargerState, i: InputEvent)
    requires
        !is_listed(s, i),
    ensures
        next_state(s, i).0 == ChargerState::Faulted,
        next_state(s, i).1 == Seq::<OutputEvent>::empty(),
{
}

} // verus!
