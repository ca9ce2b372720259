use meatnet::encapsulate::EncapsulatableMessage;
use meatnet::error::FrameError;
use meatnet::events::{probe_status_event, DeviceEvent};
use meatnet::session::{ConnectionState, CurrentState};
use meatnet::temperature::{
    CoreTemperature, HeatStartTemperature, IsTemperature, PredictionSetPointTemperature,
    Temperature,
};
use meatnet::types::{Mode, PredictionMode, PredictionState, PredictionType, SerialNumber};
use meatnet::uart::node::request as node;
use meatnet::uart::probe::request as probe;

fn status_bytes() -> Vec<u8> {
    vec![
        0x00, 0x00, 0x00, 0x00, 0x63, 0x00, 0x00, 0x00, 0x4a, 0x63, 0x69, 0x2c, 0x8d, 0xa5, 0x31,
        0x35, 0xaa, 0x46, 0xd5, 0xc0, 0x1a, 0x00, 0xc0, 0x00, 0x00, 0x00, 0xf0, 0xff, 0xbf, 0x34,
        0x00, 0x00, 0x00, 0x00, 0x00, 0x00, 0x00, 0x00, 0x00, 0x00, 0x00, 0x00, 0x00, 0x00, 0x00,
        0x00, 0x00, 0x00,
    ]
}

#[test]
fn the_status_of_the_first_probe_in_normal_mode_is_shown() {
    let serial = SerialNumber { number: 0x10001ded };
    let event = probe_status_event(&status_bytes(), serial).unwrap();
    let state = ConnectionState::Connecting.after(&event);
    assert_eq!(
        state,
        ConnectionState::Connected(CurrentState {
            core_temperature: Temperature::new(842),
            surface_temperature: Temperature::new(843),
            ambient_temperature: Temperature::new(856),
            serial_number: serial,
            log_start: 0,
            log_end: 99,
            mode: Mode::Normal,
        })
    );
    assert!(state.keeps_record_of(serial));
    assert!(!state.keeps_record_of(SerialNumber { number: 1 }));
    assert!(!ConnectionState::Connecting.keeps_record_of(serial));
    assert!(!ConnectionState::Disconnected.keeps_record_of(serial));
}

#[test]
fn other_statuses_and_log_records_change_nothing() {
    let serial = SerialNumber { number: 0x10001ded };
    let mut instant_read = status_bytes();
    instant_read[21] = 0b000_000_01;
    let event = probe_status_event(&instant_read, serial).unwrap();
    assert_eq!(
        ConnectionState::Disconnected.after(&event),
        ConnectionState::Disconnected
    );
    let mut second_probe = status_bytes();
    second_probe[21] = 0b001_000_00;
    let event = probe_status_event(&second_probe, serial).unwrap();
    assert_eq!(
        ConnectionState::Connecting.after(&event),
        ConnectionState::Connecting
    );
    let log = DeviceEvent::LogAppended(serial, 5, [Temperature::new(1); 8]);
    assert_eq!(
        ConnectionState::Connecting.after(&log),
        ConnectionState::Connecting
    );
}

#[test]
fn every_message_knows_its_request() {
    let request = node::ReadLogs {
        probe_serial_number: SerialNumber { number: 0x10001DED },
        sequence_number_start: 0,
        sequence_number_end: 9,
    }
    .encapsulate()
    .unwrap();
    let frame = request.to_bytes().unwrap();
    assert_eq!(frame.len(), 22);
    assert_eq!(frame[4], 0x04);
    assert_eq!(frame[9], 12);
    assert_eq!(
        &frame[10..],
        &[0xed, 0x1d, 0x00, 0x10, 0, 0, 0, 0, 9, 0, 0, 0]
    );
    assert_eq!(node::Request::try_from(&frame), Ok(request));

    assert_eq!(
        node::SetProbeId {}.encapsulate().unwrap().message,
        node::RequestMessage::SetProbeId(node::SetProbeId {})
    );
    assert_eq!(
        node::SetProbeColor {}.encapsulate().unwrap().message,
        node::RequestMessage::SetProbeColor(node::SetProbeColor {})
    );
    let session = node::ReadSessionInformation {
        serial_number: SerialNumber { number: 3 },
    };
    assert_eq!(
        session.encapsulate().unwrap().message,
        node::RequestMessage::ReadSessionInformation(session)
    );

    assert_eq!(
        probe::ReadLogs {
            sequence_number_start: 8,
            sequence_number_end: 10
        }
        .encapsulate()
        .to_bytes()
        .unwrap(),
        vec![0xca, 0xfe, 0x82, 0x13, 0x04, 0x08, 0x08, 0x00, 0x00, 0x00, 0x0a, 0x00, 0x00, 0x00],
    );
    assert_eq!(probe::SetProbeId {}.encapsulate().request_type, 1);
    assert_eq!(probe::SetProbeColor {}.encapsulate().request_type, 2);
    assert_eq!(probe::ReadSessionInformation {}.encapsulate().request_type, 3);
}

#[test]
fn a_status_message_has_no_request() {
    let mut frame = vec![0xca, 0xfe, 0, 0, 0x45, 0x11, 0x22, 0x33, 0x44, 53];
    frame.extend_from_slice(&[0xed, 0x1d, 0x00, 0x10]);
    frame.extend_from_slice(&status_bytes());
    frame.push(0);
    let mut crc: u16 = 0xffff;
    for byte in &frame[4..] {
        crc ^= (*byte as u16) << 8;
        for _ in 0..8 {
            crc = if crc & 0x8000 != 0 {
                (crc << 1) ^ 0x1021
            } else {
                crc << 1
            };
        }
    }
    frame[2] = (crc & 0xff) as u8;
    frame[3] = (crc >> 8) as u8;
    let (_, request) = node::Request::from_bytes(&frame).unwrap();
    match request.message {
        node::RequestMessage::ProbeStatusMessage(m) => {
            assert_eq!(m.encapsulate(), Err(FrameError::Direction))
        }
        other => panic!("not a status: {:?}", other),
    }
}

#[test]
fn tenths_of_a_degree_are_read_in_hundredths() {
    assert_eq!(Temperature::new(842).get_centi_celsius(), 2210);
    assert_eq!(IsTemperature::get_centi_celsius(&Temperature::new(842)), 2210);
    assert_eq!(
        IsTemperature::get_centi_fahrenheit(&Temperature::new(842)),
        7178
    );
    // raw 1062 is 86.2 degrees Celsius, 187.16 degrees Fahrenheit
    let core = CoreTemperature::new(1062);
    assert_eq!(core.get_centi_celsius(), 8620);
    assert_eq!(core.get_centi_fahrenheit(), 18716);
    let set_point = PredictionSetPointTemperature::new(630);
    assert_eq!(set_point.get_centi_celsius(), 6300);
    assert_eq!(set_point.get_centi_fahrenheit(), 14540);
    let heat_start = HeatStartTemperature::new(0);
    assert_eq!(heat_start.get_centi_celsius(), 0);
    assert_eq!(heat_start.get_centi_fahrenheit(), 3200);
    for raw in [0u16, 1, 200, 2047, 65535] {
        let celsius = raw as f64 * 0.1 - 20.0;
        let t = CoreTemperature::new(raw);
        assert!((t.get_centi_celsius() as f64 / 100.0 - celsius).abs() < 1e-9);
        assert!(
            (t.get_centi_fahrenheit() as f64 / 100.0 - (celsius * 9.0 / 5.0 + 32.0)).abs() < 1e-9
        );
    }
}

#[test]
fn prediction_fields_are_read_from_their_bits() {
    assert_eq!(PredictionMode::from_bits(0), PredictionMode::NoPrediction);
    assert_eq!(PredictionMode::from_bits(1), PredictionMode::TimeToRemoval);
    assert_eq!(PredictionMode::from_bits(6), PredictionMode::RemovalAndResting);
    assert_eq!(PredictionType::from_bits(2), PredictionType::Resting);
    assert_eq!(PredictionType::from_bits(3), PredictionType::Reserved);
    assert_eq!(PredictionState::from_bits(0), PredictionState::ProbeNotInserted);
    assert_eq!(PredictionState::from_bits(4), PredictionState::RemovalPredictionDone);
    assert_eq!(PredictionState::from_bits(15), PredictionState::Unknown);
    assert_eq!(PredictionState::from_bits(0x13), PredictionState::Predicting);
}
