use esp32c6_embassy_charged::bus::{BusMessage, StateMachine, StepOutcome};
use esp32c6_embassy_charged::charger::{ChargerState, InputEvent, OutputEvent};
use esp32c6_embassy_charged::config::{Config, ConfigOverrides};
use esp32c6_embassy_charged::delivery::{Delivery, PayloadQueue, QueueError};
use esp32c6_embassy_charged::ocpp::{
    authorize, boot_notification, charge_point_status, heartbeat, start_transaction, status_notification,
    queue_call, stop_transaction, MessageError, MessageIds, OcppSession, OcppStatus, Request,
};
use esp32c6_embassy_charged::response::{decode_response, parse_response, ResponseEffect};

fn no_overrides() -> ConfigOverrides {
    ConfigOverrides {
        wifi_ssid: None,
        wifi_password: None,
        charger_name: None,
        charger_model: None,
        charger_vendor: None,
        charger_serial: None,
        mqtt_broker: None,
        mqtt_port: None,
        mqtt_client_id: None,
        ntp_server: None,
        ntp_sync_interval_minutes: None,
        timezone_offset_hours: None,
        ocpp_heartbeat_interval: None,
        ocpp_id_tag: None,
    }
}

fn text(b: &[u8]) -> String {
    String::from_utf8(b.to_vec()).unwrap()
}

/// The quoted value that follows `"status":"` in a payload.
fn status_field(json: &str) -> String {
    let start = json.find("\"status\":\"").unwrap() + 10;
    let end = json[start..].find('"').unwrap();
    json[start..start + end].to_string()
}

#[test]
fn message_ids_count_up_from_one() {
    let mut ids = MessageIds::new();
    assert_eq!(ids.next_ocpp_message_id(), "1");
    assert_eq!(ids.next_ocpp_message_id(), "2");
    let mut seen = std::collections::HashSet::new();
    let mut last = 2u32;
    for _ in 0..1000 {
        let id = ids.next_ocpp_message_id();
        let n: u32 = id.parse().unwrap();
        assert!(n > last);
        last = n;
        assert!(seen.insert(id));
    }
}

#[test]
fn status_mapping_round_trips_through_the_wire() {
    let cases = [
        (ChargerState::Available, "Available"),
        (ChargerState::Occupied, "Preparing"),
        (ChargerState::Charging, "Charging"),
        (ChargerState::Faulted, "Faulted"),
        (ChargerState::Off, "Unavailable"),
        (ChargerState::Authorizing, "Unavailable"),
    ];
    for (state, status) in cases {
        let json = text(&status_notification("9", state, 0).unwrap());
        assert_eq!(status_field(&json), status, "{state:?}");
        assert!(json.starts_with("[2,\"9\",\"StatusNotification\","), "{json}");
        assert!(json.contains("\"errorCode\":\"NoError\""), "{json}");
        assert!(json.contains("1970-01-01T00:00:00"), "{json}");
    }
    assert_eq!(charge_point_status(ChargerState::Authorizing), OcppStatus::Unavailable);
    assert_eq!(charge_point_status(ChargerState::Occupied), OcppStatus::Preparing);
}

#[test]
fn outgoing_calls_have_the_call_shape() {
    let config = Config::from_env(&no_overrides());
    let boot = text(&boot_notification("1", &config, "0.1.0").unwrap());
    assert!(boot.starts_with("[2,\"1\",\"BootNotification\","), "{boot}");
    assert!(boot.contains("\"chargePointModel\":\"ESP32-C6\""), "{boot}");
    assert!(boot.contains("\"chargePointVendor\":\"GA Make\""), "{boot}");
    assert!(boot.contains("\"firmwareVersion\":\"0.1.0\""), "{boot}");
    assert_eq!(text(&heartbeat("2").unwrap()), "[2,\"2\",\"Heartbeat\",{}]");
    assert_eq!(text(&authorize("3", "123456").unwrap()), "[2,\"3\",\"Authorize\",{\"idTag\":\"123456\"}]");
    let start = text(&start_transaction("4", "123456", 0).unwrap());
    assert!(start.starts_with("[2,\"4\",\"StartTransaction\","), "{start}");
    assert!(start.contains("\"meterStart\":0"), "{start}");
    assert!(start.contains("\"connectorId\":0"), "{start}");
    let stop = text(&stop_transaction("5", 43, "123456", 0).unwrap());
    assert!(stop.starts_with("[2,\"5\",\"StopTransaction\","), "{stop}");
    assert!(stop.contains("\"transactionId\":43"), "{stop}");
    assert!(stop.contains("\"meterStop\":0"), "{stop}");
}

#[test]
fn outbound_queue_refuses_the_sixth_payload() {
    let mut q = PayloadQueue::new();
    for k in 0..5u8 {
        assert_eq!(q.try_send(&[k, k]), Ok(()));
    }
    assert_eq!(q.try_send(&[9]), Err(QueueError::Full));
    assert_eq!(q.len(), 5);
    for k in 0..5u8 {
        assert_eq!(q.try_receive(), Some(vec![k, k]));
    }
    assert_eq!(q.try_receive(), None);
}

#[test]
fn oversized_payload_is_refused() {
    let mut q = PayloadQueue::new();
    assert_eq!(q.try_send(&vec![0u8; 2049]), Err(QueueError::TooLarge));
    assert_eq!(q.try_send(&vec![0u8; 2048]), Ok(()));
}

#[test]
fn failed_send_is_retried_once_then_dropped_when_full() {
    let mut d = Delivery::new();
    d.outbound.try_send(b"a").unwrap();
    let p = d.next_outbound().unwrap();
    assert!(d.send_failed(&p));
    assert_eq!(d.next_outbound(), Some(b"a".to_vec()));
    for _ in 0..5 {
        d.outbound.try_send(b"x").unwrap();
    }
    assert!(!d.send_failed(b"a"));
    assert_eq!(d.outbound.len(), 5);
}

#[test]
fn inbound_is_dropped_when_full() {
    let mut d = Delivery::new();
    for _ in 0..5 {
        assert!(d.accept_inbound(b"[3]"));
    }
    assert!(!d.accept_inbound(b"[3]"));
    assert_eq!(d.next_inbound(), Some(b"[3]".to_vec()));
}

#[test]
fn session_send_reports_a_full_queue() {
    let config = Config::from_env(&no_overrides());
    let mut session = OcppSession::new("0.1.0");
    let mut q = PayloadQueue::new();
    for _ in 0..5 {
        assert_eq!(session.send(Request::Heartbeat, &config, 0, 0, &mut q), Ok(()));
    }
    assert_eq!(
        session.send(Request::Heartbeat, &config, 0, 0, &mut q),
        Err(MessageError::Queue(QueueError::Full))
    );
}

fn drain(sm: &mut StateMachine, sub: usize, session: &mut OcppSession, config: &Config, q: &mut PayloadQueue) {
    while let Some(m) = sm.next_message(sub) {
        if let BusMessage::Message(rec) = m {
            for req in session.react(&rec) {
                let _ = session.send(req, config, sm.get_transaction_id(), 0, q);
            }
        }
    }
}

#[test]
fn scenario_session_from_cable_to_charging() {
    let config = Config::from_env(&no_overrides());
    let mut sm = StateMachine::new(ChargerState::Available);
    let sub = sm.subscribe().unwrap();
    let mut session = OcppSession::new("0.1.0");
    let mut q = PayloadQueue::new();
    let mut sent: Vec<String> = Vec::new();
    let inputs = [
        (InputEvent::InsertCable, ChargerState::Occupied),
        (InputEvent::SwipeDetected, ChargerState::Authorizing),
        (InputEvent::Accepted, ChargerState::Charging),
    ];
    let mut last_outputs = vec![];
    for (input, expected) in inputs {
        assert!(sm.send_input(input));
        match sm.step(0) {
            StepOutcome::Applied { state, outputs, published } => {
                assert_eq!(state, expected);
                assert!(published);
                last_outputs = outputs;
            }
            _ => panic!("expected a transition"),
        }
        drain(&mut sm, sub, &mut session, &config, &mut q);
        while let Some(p) = q.try_receive() {
            sent.push(text(&p));
        }
    }
    assert_eq!(last_outputs, vec![OutputEvent::ApplyPower, OutputEvent::Lock]);
    let starts = sent.iter().filter(|m| m.contains("\"StartTransaction\"")).count();
    assert_eq!(starts, 1);
    assert_eq!(sent.iter().filter(|m| m.contains("\"Authorize\"")).count(), 1);
}

#[test]
fn stop_transaction_uses_the_stored_transaction_id() {
    let config = Config::from_env(&no_overrides());
    let mut sm = StateMachine::new(ChargerState::Charging);
    let sub = sm.subscribe().unwrap();
    sm.set_transaction_id(43);
    let mut session = OcppSession::new("0.1.0");
    let mut q = PayloadQueue::new();
    sm.send_input(InputEvent::SwipeDetected);
    sm.step(0);
    drain(&mut sm, sub, &mut session, &config, &mut q);
    let mut stops = 0;
    while let Some(p) = q.try_receive() {
        let m = text(&p);
        if m.contains("\"StopTransaction\"") {
            assert!(m.contains("\"transactionId\":43"), "{m}");
            stops += 1;
        }
    }
    assert_eq!(stops, 1);
}

#[test]
fn status_notifications_skip_authorizing_and_repeats() {
    let mut session = OcppSession::new("0.1.0");
    assert_eq!(session.initial_status(ChargerState::Occupied), Request::StatusNotification(ChargerState::Occupied));
    let rec = |s: ChargerState, o: Vec<OutputEvent>| esp32c6_embassy_charged::bus::BroadcastRecord { state: s, outputs: o };
    assert_eq!(session.react(&rec(ChargerState::Authorizing, vec![])), vec![Request::Authorize]);
    assert_eq!(session.react(&rec(ChargerState::Occupied, vec![OutputEvent::ShowRejected])), vec![]);
    assert_eq!(
        session.react(&rec(ChargerState::Available, vec![])),
        vec![Request::StatusNotification(ChargerState::Available)]
    );
}

#[test]
fn authorize_results_become_input_events() {
    let mut sm = StateMachine::new(ChargerState::Authorizing);
    let effect = sm.handle_inbound(b"[3,\"Authorize\",{\"status\":\"Accepted\"}]");
    assert_eq!(effect, ResponseEffect::Input(InputEvent::Accepted));
    assert_eq!(sm.pending_inputs(), 1);
    let effect = sm.handle_inbound(b"[3,\"Authorize\",{\"status\":\"Rejected\"}]");
    assert_eq!(effect, ResponseEffect::Input(InputEvent::Rejected));
    assert_eq!(sm.pending_inputs(), 2);
    match sm.step(0) {
        StepOutcome::Applied { state, .. } => assert_eq!(state, ChargerState::Charging),
        _ => panic!("expected a transition"),
    }
}

#[test]
fn start_transaction_result_records_the_id() {
    let mut sm = StateMachine::new(ChargerState::Charging);
    let effect = sm.handle_inbound(
        b"[3,\"StartTransaction\",{\"transactionId\":43,\"idTagInfo\":{\"status\":\"Accepted\"}}]",
    );
    assert_eq!(effect, ResponseEffect::TransactionStarted(43));
    assert_eq!(sm.get_transaction_id(), 43);
    assert_eq!(sm.pending_inputs(), 0);
}

#[test]
fn malformed_payloads_are_ignored() {
    let cases: [&[u8]; 10] = [
        b"",
        b"hello",
        b"[2,\"Authorize\",{\"status\":\"Accepted\"}]",
        b"[3,\"Authorize\"]",
        b"[3,\"Authorize\",{\"state\":\"Accepted\"}]",
        b"[3,\"Authorize\",{\"status\":\"Accepted}]",
        b"[3,\"Heartbeat\",{\"currentTime\":\"x\"}]",
        b"[3,\"StartTransaction\",{\"transactionId\":abc}]",
        b"[3,\"StartTransaction\",{\"transactionId\":99999999999}]",
        &[b'[', 0xff, b']'],
    ];
    for c in cases {
        assert_eq!(decode_response(c), ResponseEffect::Ignored, "{c:?}");
    }
}

#[test]
fn parser_trims_the_message_type_and_reads_signed_ids() {
    let t: Vec<char> = "[+3, \" Authorize\" ,{\"status\":\"Blocked\"}]".chars().collect();
    // The quotes are inside the whitespace, so the type reads ` Authorize`.
    assert_eq!(parse_response(&t), ResponseEffect::Ignored);
    let t: Vec<char> = "[3, \"Authorize\" ,{\"status\":\"Blocked\"}]".chars().collect();
    assert_eq!(parse_response(&t), ResponseEffect::Input(InputEvent::Rejected));
    let t: Vec<char> = "[03,StartTransaction,{\"transactionId\":-7}]".chars().collect();
    assert_eq!(parse_response(&t), ResponseEffect::TransactionStarted(-7));
    let t: Vec<char> = "[3,\"StartTransaction\",{\"transactionId\":2147483647}]".chars().collect();
    assert_eq!(parse_response(&t), ResponseEffect::TransactionStarted(2147483647));
    let t: Vec<char> = "[256,\"Authorize\",{\"status\":\"Accepted\"}]".chars().collect();
    assert_eq!(parse_response(&t), ResponseEffect::Ignored);
}

#[test]
fn full_input_queue_drops_authorize_result() {
    let mut sm = StateMachine::new(ChargerState::Authorizing);
    for _ in 0..10 {
        sm.send_input(InputEvent::NoEvent);
    }
    let effect = sm.handle_inbound(b"[3,\"Authorize\",{\"status\":\"Accepted\"}]");
    assert_eq!(effect, ResponseEffect::Input(InputEvent::Accepted));
    assert_eq!(sm.pending_inputs(), 10);
}

#[test]
fn queue_call_passes_errors_and_respects_capacity() {
    let mut q = PayloadQueue::new();
    assert_eq!(queue_call(Err(MessageError::Encoding), &mut q), Err(MessageError::Encoding));
    assert_eq!(q.len(), 0);
    assert_eq!(queue_call(Ok(vec![0u8; 4096]), &mut q), Err(MessageError::Queue(QueueError::TooLarge)));
    for _ in 0..5 {
        assert_eq!(queue_call(Ok(b"x".to_vec()), &mut q), Ok(()));
    }
    assert_eq!(queue_call(Ok(b"y".to_vec()), &mut q), Err(MessageError::Queue(QueueError::Full)));
    assert_eq!(q.try_receive(), Some(b"x".to_vec()));
}

#[test]
fn unicode_whitespace_around_the_message_type_is_trimmed() {
    let t: Vec<char> = "[3,\u{3000}\"Authorize\"\u{a0},{\"status\":\"Accepted\"}]".chars().collect();
    assert_eq!(parse_response(&t), ResponseEffect::Input(InputEvent::Accepted));
    let bytes = "[3,\u{2003}\"StartTransaction\" ,{\"transactionId\":+12}]".as_bytes();
    assert_eq!(decode_response(bytes), ResponseEffect::TransactionStarted(12));
}
