//! The sink capability and the pipeline driver on concrete values:
//! payload projection, destination derivation, sink selection, and the
//! driver's transitions.

use adsb_relay::json::payload_json;
use adsb_relay::numbers::parse_capped;
use adsb_relay::sink::{credentialed_auth, mqtt_topic, publish_plan, security_protocol};
use adsb_relay::{
    DriverState, PublishOutcome, SinkKind, SinkTarget, SourceEvent, StepAction, driver_step,
    parse_adsb_message, select_sink,
};

const FULL_LINE: &str =
    "MSG,3,1,1,ABC123,1,2024/01/01,12:00:00,2024/01/01,12:00:00,,5000,450.0,270.0,51.5,-0.1,,,,,,,";

#[test]
fn payload_is_the_fixed_projection() {
    let m = parse_adsb_message(FULL_LINE).expect("line is accepted");
    assert_eq!(
        payload_json(&m),
        "{\"identifier\":\"ABC123\",\"transmissionType\":3,\"altitude\":5000,\
         \"latitude\":51.5,\"longitude\":-0.1,\"groundSpeed\":450.0,\"track\":270.0}"
    );
}

#[test]
fn absent_attributes_are_null_in_the_payload() {
    let line = "MSG,3,1,1,ABC123,1,2024/01/01,12:00:00,2024/01/01,12:00:00,,,,,,,,,,,,,";
    let m = parse_adsb_message(line).expect("line is accepted");
    assert_eq!(
        payload_json(&m),
        "{\"identifier\":\"ABC123\",\"transmissionType\":3,\"altitude\":null,\
         \"latitude\":null,\"longitude\":null,\"groundSpeed\":null,\"track\":null}"
    );
}

#[test]
fn identifier_is_escaped_in_the_payload() {
    let line = "MSG,3,1,1,A\"B\\C\u{1},1,d,t,d,t,,,,,,,,,,,,,";
    let m = parse_adsb_message(line).expect("line is accepted");
    let payload = payload_json(&m);
    assert!(payload.starts_with("{\"identifier\":\"A\\\"B\\\\C\\u0001\","));
}

#[test]
fn control_characters_use_short_escapes() {
    let line = "MSG,3,1,1,a\nb\tc,1,d,t,d,t,,,,,,,,,,,,,";
    let m = parse_adsb_message(line).expect("line is accepted");
    let payload = payload_json(&m);
    assert!(payload.starts_with("{\"identifier\":\"a\\nb\\tc\","));
}

#[test]
fn mqtt_destination_combines_identifier_and_transmission_type() {
    let m = parse_adsb_message(FULL_LINE).expect("line is accepted");
    assert_eq!(mqtt_topic(&m), "adsb/ABC123/3");
}

#[test]
fn same_identifier_and_type_derive_the_same_destination() {
    let other =
        "MSG,3,9,9,ABC123,9,2025/05/05,01:02:03,2025/05/05,01:02:03,,100,1.0,2.0,3.0,4.0,,,,,,,";
    let a = parse_adsb_message(FULL_LINE).expect("line is accepted");
    let b = parse_adsb_message(other).expect("line is accepted");
    assert_eq!(mqtt_topic(&a), mqtt_topic(&b));
}

#[test]
fn sink_selection_defaults_to_mqtt() {
    assert_eq!(select_sink(None), SinkKind::Mqtt);
}

#[test]
fn sink_selection_takes_kafka_only_on_the_exact_value() {
    assert_eq!(select_sink(Some("Kafka")), SinkKind::Kafka);
    assert_eq!(select_sink(Some("kafka")), SinkKind::Mqtt);
    assert_eq!(select_sink(Some("MQTT")), SinkKind::Mqtt);
    assert_eq!(select_sink(Some("")), SinkKind::Mqtt);
}

#[test]
fn mqtt_plan_has_no_key() {
    let m = parse_adsb_message(FULL_LINE).expect("line is accepted");
    let p = publish_plan(&SinkTarget::Mqtt, &m);
    assert_eq!(p.destination, "adsb/ABC123/3");
    assert_eq!(p.key, None);
}

#[test]
fn kafka_plan_keys_by_identifier() {
    let m = parse_adsb_message(FULL_LINE).expect("line is accepted");
    let p = publish_plan(&SinkTarget::Kafka("telemetry".to_string()), &m);
    assert_eq!(p.destination, "telemetry");
    assert_eq!(p.key.as_deref(), Some("ABC123"));
    assert_eq!(p.payload, payload_json(&m));
}

#[test]
fn driver_publishes_an_accepted_line_and_stays_running() {
    let target = SinkTarget::Mqtt;
    let event = SourceEvent::Line(FULL_LINE.to_string());
    let (state, action) = driver_step(&target, DriverState::Running, &event);
    assert_eq!(state, DriverState::Running);
    match action {
        StepAction::Publish(p) => {
            assert_eq!(p.destination, "adsb/ABC123/3");
            assert_eq!(p.key, None);
            let m = parse_adsb_message(FULL_LINE).unwrap();
            assert_eq!(p.payload, payload_json(&m));
        }
        other => panic!("expected a publish, got {:?}", other),
    }
}

#[test]
fn driver_rejects_a_malformed_line_and_stays_running() {
    let target = SinkTarget::Mqtt;
    let event = SourceEvent::Line("MSG,3,1,1,ABC123".to_string());
    let (state, action) = driver_step(&target, DriverState::Running, &event);
    assert_eq!(state, DriverState::Running);
    assert_eq!(action, StepAction::Reject);
}

#[test]
fn driver_terminates_on_stream_end_and_on_error() {
    let target = SinkTarget::Mqtt;
    for event in [SourceEvent::StreamEnd, SourceEvent::StreamError] {
        let (state, action) = driver_step(&target, DriverState::Running, &event);
        assert_eq!(state, DriverState::Terminated);
        assert_eq!(action, StepAction::Stop);
    }
}

#[test]
fn terminated_driver_only_stops() {
    let target = SinkTarget::Mqtt;
    let event = SourceEvent::Line(FULL_LINE.to_string());
    let (state, action) = driver_step(&target, DriverState::Terminated, &event);
    assert_eq!(state, DriverState::Terminated);
    assert_eq!(action, StepAction::Stop);
}

#[test]
fn security_protocol_names_all_four_modes() {
    assert_eq!(security_protocol(true, true), "SASL_SSL");
    assert_eq!(security_protocol(true, false), "SASL_PLAINTEXT");
    assert_eq!(security_protocol(false, true), "SSL");
    assert_eq!(security_protocol(false, false), "PLAINTEXT");
}

#[test]
fn only_the_anonymous_value_disables_credentials() {
    assert!(credentialed_auth(None));
    assert!(credentialed_auth(Some("SCRAM-SHA-512")));
    assert!(!credentialed_auth(Some("Anonymous")));
}

#[test]
fn publish_outcome_reports_success() {
    assert!(PublishOutcome::Success.is_success());
    assert!(!PublishOutcome::Failure("broker unreachable".to_string()).is_success());
}

#[test]
fn capped_parse_follows_the_unsigned_grammar() {
    assert_eq!(parse_capped("42", 255), Some(42));
    assert_eq!(parse_capped("+42", 255), Some(42));
    assert_eq!(parse_capped("256", 255), None);
    assert_eq!(parse_capped("255", 255), Some(255));
    assert_eq!(parse_capped("", 255), None);
    assert_eq!(parse_capped("+", 255), None);
    assert_eq!(parse_capped("4 2", 255), None);
    assert_eq!(parse_capped("042", 255), Some(42));
}
