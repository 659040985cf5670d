use esp32c6_embassy_charged::bus::{BroadcastRecord, BusMessage, StateMachine, StepOutcome};
use esp32c6_embassy_charged::charger::{compute_transition, Charger, ChargerState, InputEvent, OutputEvent};

const STATES: [ChargerState; 6] = [
    ChargerState::Off,
    ChargerState::Faulted,
    ChargerState::Available,
    ChargerState::Occupied,
    ChargerState::Charging,
    ChargerState::Authorizing,
];

const INPUTS: [InputEvent; 6] = [
    InputEvent::InsertCable,
    InputEvent::RemoveCable,
    InputEvent::SwipeDetected,
    InputEvent::Accepted,
    InputEvent::Rejected,
    InputEvent::NoEvent,
];

fn listed(s: ChargerState, i: InputEvent) -> bool {
    matches!(
        (s, i),
        (ChargerState::Available, InputEvent::InsertCable)
            | (ChargerState::Occupied, InputEvent::SwipeDetected)
            | (ChargerState::Authorizing, InputEvent::Accepted)
            | (ChargerState::Authorizing, InputEvent::Rejected)
            | (ChargerState::Charging, InputEvent::SwipeDetected)
            | (ChargerState::Occupied, InputEvent::RemoveCable)
            | (ChargerState::Charging, InputEvent::RemoveCable)
            | (ChargerState::Faulted, _)
    )
}

#[test]
fn unlisted_pairs_fault_without_outputs() {
    for s in STATES {
        for i in INPUTS {
            if !listed(s, i) {
                let (next, outs) = compute_transition(s, i);
                assert_eq!(next, ChargerState::Faulted, "{s:?} + {i:?}");
                assert!(outs.is_empty());
            }
        }
    }
}

#[test]
fn authorizing_accepted_and_rejected() {
    assert_eq!(
        compute_transition(ChargerState::Authorizing, InputEvent::Accepted),
        (ChargerState::Charging, vec![OutputEvent::ApplyPower, OutputEvent::Lock])
    );
    assert_eq!(
        compute_transition(ChargerState::Authorizing, InputEvent::Rejected),
        (ChargerState::Occupied, vec![OutputEvent::ShowRejected])
    );
}

#[test]
fn listed_rows() {
    assert_eq!(compute_transition(ChargerState::Available, InputEvent::InsertCable), (ChargerState::Occupied, vec![]));
    assert_eq!(compute_transition(ChargerState::Occupied, InputEvent::SwipeDetected), (ChargerState::Authorizing, vec![]));
    assert_eq!(
        compute_transition(ChargerState::Charging, InputEvent::SwipeDetected),
        (ChargerState::Occupied, vec![OutputEvent::RemovePower, OutputEvent::Unlock])
    );
    assert_eq!(compute_transition(ChargerState::Occupied, InputEvent::RemoveCable), (ChargerState::Available, vec![]));
    assert_eq!(
        compute_transition(ChargerState::Charging, InputEvent::RemoveCable),
        (ChargerState::Faulted, vec![OutputEvent::RemovePower, OutputEvent::Unlock])
    );
    for i in INPUTS {
        assert_eq!(compute_transition(ChargerState::Faulted, i), (ChargerState::Available, vec![]));
    }
}

#[test]
fn charger_commits_state_and_keeps_transaction() {
    let mut c = Charger::new();
    assert_eq!(c.get_state(), ChargerState::Off);
    assert_eq!(c.get_transaction_id(), 0);
    c.set_state(ChargerState::Available);
    c.set_transaction_id(7);
    let (s, outs) = c.transition(InputEvent::InsertCable);
    assert_eq!(s, ChargerState::Occupied);
    assert!(outs.is_empty());
    assert_eq!(c.get_state(), ChargerState::Occupied);
    assert_eq!(c.get_transaction_id(), 7);
}

#[test]
fn state_predicates_and_names() {
    assert!(ChargerState::Charging.is_operational());
    assert!(!ChargerState::Authorizing.is_operational());
    assert!(ChargerState::Charging.is_occupied());
    assert!(ChargerState::Occupied.is_occupied());
    assert!(!ChargerState::Available.is_occupied());
    assert!(ChargerState::Available.is_available());
    assert!(ChargerState::Faulted.has_error());
    assert!(ChargerState::Charging.is_charging());
    assert_eq!(ChargerState::Faulted.as_str(), "Error");
    assert_eq!(ChargerState::Off.as_str(), "Off");
    assert_eq!(ChargerState::Authorizing.as_str(), "Authorizing");
    assert_eq!(ChargerState::default(), ChargerState::Off);
}

fn applied(o: StepOutcome) -> (ChargerState, Vec<OutputEvent>, bool) {
    match o {
        StepOutcome::Applied { state, outputs, published } => (state, outputs, published),
        _ => panic!("expected an applied transition"),
    }
}

#[test]
fn fault_blocks_inputs_until_recovery_then_clears_queue() {
    let mut sm = StateMachine::new(ChargerState::Charging);
    let sub = sm.subscribe().unwrap();
    assert!(sm.send_input(InputEvent::RemoveCable));
    let (s, outs, published) = applied(sm.step(0));
    assert_eq!(s, ChargerState::Faulted);
    assert_eq!(outs, vec![OutputEvent::RemovePower, OutputEvent::Unlock]);
    assert!(published);
    // Any input in Faulted starts the recovery delay.
    assert!(sm.send_input(InputEvent::InsertCable));
    assert!(matches!(sm.step(100), StepOutcome::RecoveryStarted));
    // Inputs arriving during the delay are not processed.
    assert!(sm.send_input(InputEvent::SwipeDetected));
    assert!(sm.send_input(InputEvent::InsertCable));
    assert!(matches!(sm.step(2000), StepOutcome::Recovering));
    assert!(matches!(sm.step(5099), StepOutcome::Recovering));
    assert_eq!(sm.get_state(), ChargerState::Faulted);
    assert_eq!(sm.pending_inputs(), 2);
    assert!(matches!(sm.step(5100), StepOutcome::Recovered));
    assert_eq!(sm.get_state(), ChargerState::Available);
    assert_eq!(sm.pending_inputs(), 0);
    assert!(matches!(sm.step(5200), StepOutcome::Idle));
    // The subscriber saw Faulted, then Available.
    match sm.next_message(sub) {
        Some(BusMessage::Message(r)) => assert_eq!(r.state, ChargerState::Faulted),
        _ => panic!("expected the fault record"),
    }
    match sm.next_message(sub) {
        Some(BusMessage::Message(r)) => {
            assert_eq!(r.state, ChargerState::Available);
            assert!(r.outputs.is_empty());
        }
        _ => panic!("expected the recovery record"),
    }
    assert!(sm.next_message(sub).is_none());
}

#[test]
fn scenario_charging_cable_removed_then_recovers() {
    let mut sm = StateMachine::new(ChargerState::Charging);
    sm.send_input(InputEvent::RemoveCable);
    let (s, outs, _) = applied(sm.step(10));
    assert_eq!(s, ChargerState::Faulted);
    assert_eq!(outs, vec![OutputEvent::RemovePower, OutputEvent::Unlock]);
    sm.send_input(InputEvent::NoEvent);
    assert!(matches!(sm.step(20), StepOutcome::RecoveryStarted));
    assert!(matches!(sm.step(5020), StepOutcome::Recovered));
    assert_eq!(sm.get_state(), ChargerState::Available);
}

#[test]
fn input_queue_holds_ten() {
    let mut sm = StateMachine::new(ChargerState::Available);
    for _ in 0..10 {
        assert!(sm.send_input(InputEvent::InsertCable));
    }
    assert!(!sm.send_input(InputEvent::RemoveCable));
    assert_eq!(sm.pending_inputs(), 10);
}

#[test]
fn unchanged_state_is_not_published() {
    let mut sm = StateMachine::new(ChargerState::Faulted);
    let mut sm2 = StateMachine::new(ChargerState::Available);
    sm2.send_input(InputEvent::InsertCable);
    let (_, _, published) = applied(sm2.step(0));
    assert!(published);
    assert_eq!(sm2.published(), 1);
    // A fresh handler that publishes nothing until a change happens.
    assert_eq!(sm.published(), 0);
}

#[test]
fn slow_subscriber_is_told_it_lagged() {
    let mut sm = StateMachine::new(ChargerState::Available);
    let sub = sm.subscribe().unwrap();
    for k in 0..11u32 {
        sm.announce(BroadcastRecord {
            state: if k % 2 == 0 { ChargerState::Occupied } else { ChargerState::Available },
            outputs: vec![],
        });
    }
    match sm.next_message(sub) {
        Some(BusMessage::Lagged(n)) => assert_eq!(n, 3),
        _ => panic!("expected a lag signal"),
    }
    // After the signal the subscriber resumes at the oldest record held.
    match sm.next_message(sub) {
        Some(BusMessage::Message(r)) => assert_eq!(r.state, ChargerState::Available),
        _ => panic!("expected a record"),
    }
}

#[test]
fn at_most_six_subscribers() {
    let mut sm = StateMachine::new(ChargerState::Available);
    for k in 0..6 {
        assert_eq!(sm.subscribe(), Some(k));
    }
    assert_eq!(sm.subscribe(), None);
}
