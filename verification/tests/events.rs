use meatnet::device::{select_device, DeviceKind, FindDeviceError};
use meatnet::advertisement::ManufacturerSpecificData;
use meatnet::error::DecodeError;
use meatnet::events::{
    event_of_node_message, probe_notification, probe_status_event, DeviceEvent,
};
use meatnet::status::ProbeStatus;
use meatnet::sync::SyncMessages;
use meatnet::temperature::Temperature;
use meatnet::types::{ProductType, SerialNumber};
use meatnet::uart::node::try_request_or_response_from;

fn crc16(data: &[u8]) -> u16 {
    let mut crc: u16 = 0xffff;
    for byte in data {
        crc ^= (*byte as u16) << 8;
        for _ in 0..8 {
            crc = if crc & 0x8000 != 0 {
                (crc << 1) ^ 0x1021
            } else {
                crc << 1
            };
        }
    }
    crc
}

fn status_bytes() -> Vec<u8> {
    vec![
        0x00, 0x00, 0x00, 0x00, 0x63, 0x00, 0x00, 0x00, 0x4a, 0x63, 0x69, 0x2c, 0x8d, 0xa5, 0x31,
        0x35, 0xaa, 0x46, 0xd5, 0xc0, 0x1a, 0x00, 0xc0, 0x00, 0x00, 0x00, 0xf0, 0xff, 0xbf, 0x34,
        0x00, 0x00, 0x00, 0x00, 0x00, 0x00, 0x00, 0x00, 0x00, 0x00, 0x00, 0x00, 0x00, 0x00, 0x00,
        0x00, 0x00, 0x00,
    ]
}

// A status message as a node relays it: a request of type 0x45.
fn status_frame(hop_byte: u8) -> Vec<u8> {
    let mut frame = vec![0xca, 0xfe, 0, 0, 0x45, 0x11, 0x22, 0x33, 0x44, 53];
    frame.extend_from_slice(&[0xed, 0x1d, 0x00, 0x10]);
    frame.extend_from_slice(&status_bytes());
    frame.push(hop_byte);
    let crc = crc16(&frame[4..]);
    frame[2] = (crc & 0xff) as u8;
    frame[3] = (crc >> 8) as u8;
    frame
}

fn node_read_logs_frame() -> Vec<u8> {
    vec![
        0xca, 0xfe, 0xc2, 0x8, 0x84, 0xb3, 0x69, 0x4c, 0xa, 0x42, 0x4f, 0x95, 0x44, 0x1, 0x1c,
        0xed, 0x1d, 0x0, 0x10, 0x2, 0x0, 0x0, 0x0, 0x26, 0x24, 0x80, 0x5c, 0x90, 0x13, 0xc2, 0x3d,
        0x56, 0xc7, 0xe4, 0x98, 0x1c, 0xe0, 0x0, 0x0, 0xfe, 0xff, 0xd7, 0x7,
    ]
}

fn probe_read_logs_frame() -> Vec<u8> {
    vec![
        0xca, 0xfe, 0x26, 0xb9, 0x04, 0x01, 0x18, 0x09, 0x00, 0x00, 0x00, 0x6e, 0xe5, 0xad, 0x98,
        0x95, 0xa6, 0x82, 0x50, 0x88, 0x89, 0x24, 0x69, 0x23, 0x70, 0x00, 0x00, 0xfe, 0xff, 0xd7,
        0x0a,
    ]
}

#[test]
fn a_relayed_status_tells_the_window() {
    let frame = status_frame(1);
    let message = try_request_or_response_from(&frame).unwrap();
    let event = event_of_node_message(&message).unwrap();
    let serial = SerialNumber { number: 0x10001ded };
    match event {
        DeviceEvent::StatusUpdated(s, status) => {
            assert_eq!(s, serial);
            assert_eq!(status, ProbeStatus::read(&status_bytes(), 0));
            assert_eq!(status.log_start, 0);
            assert_eq!(status.log_end, 99);
        }
        other => panic!("not a status: {:?}", other),
    }
    assert_eq!(
        event.sync_message_for(serial),
        Some(SyncMessages::LogRangeAvailable(0, 99))
    );
    assert_eq!(event.sync_message_for(SerialNumber { number: 1 }), None);
}

#[test]
fn a_relayed_status_with_an_unknown_hop_count_is_refused() {
    let frame = status_frame(4);
    assert!(try_request_or_response_from(&frame).is_err());
    assert_eq!(
        meatnet::uart::node::request::Request::from_bytes(&frame),
        Err(meatnet::error::FrameError::Structure(
            DecodeError::UnknownDiscriminator
        ))
    );
}

#[test]
fn a_status_message_cannot_be_sent() {
    let frame = status_frame(0);
    let (_, request) = meatnet::uart::node::request::Request::from_bytes(&frame).unwrap();
    assert_eq!(
        request.message.to_bytes(),
        Err(meatnet::error::FrameError::Direction)
    );
    assert_eq!(
        request.to_bytes(),
        Err(meatnet::error::FrameError::Direction)
    );
    assert_eq!(
        meatnet::uart::node::request::Request::new_with_id(request.message, 7),
        Err(meatnet::error::FrameError::Direction)
    );
    assert_eq!(
        meatnet::uart::node::request::Request::new(request.message),
        Err(meatnet::error::FrameError::Direction)
    );
    assert_eq!(
        request.message.encapsulate(),
        Err(meatnet::error::FrameError::Direction)
    );
}

#[test]
fn a_log_record_from_a_node_tells_what_has_arrived() {
    let message = try_request_or_response_from(&node_read_logs_frame()).unwrap();
    let event = event_of_node_message(&message).unwrap();
    match event {
        DeviceEvent::LogAppended(serial, sequence_number, temperatures) => {
            assert_eq!(serial.number, 0x10001ded);
            assert_eq!(sequence_number, 2);
            assert_eq!(temperatures[0], Temperature::new(1062));
            assert_eq!(temperatures[7], Temperature::new(915));
        }
        other => panic!("not a log record: {:?}", other),
    }
    assert_eq!(
        event.sync_message_for(SerialNumber { number: 0x10001ded }),
        Some(SyncMessages::LogReceived(2))
    );
}

#[test]
fn other_messages_of_a_node_are_no_events() {
    let frame = vec![
        0xca, 0xfe, 0xe9, 0xb5, 0x03, 0x42, 0xcd, 0x50, 0xa8, 0x04, 0xed, 0x1d, 0x00, 0x10,
    ];
    let message = try_request_or_response_from(&frame).unwrap();
    assert_eq!(event_of_node_message(&message), None);
}

#[test]
fn a_notification_of_a_probe_may_hold_several_records() {
    let serial = SerialNumber { number: 42 };
    let mut buffer = probe_read_logs_frame();
    buffer.extend_from_slice(&[202, 254, 188, 168, 3, 1, 6, 188, 254, 245, 34, 136, 19]);
    buffer.extend_from_slice(&probe_read_logs_frame());
    buffer.extend_from_slice(&[0xca, 0xfe, 0x00]);
    let notification = probe_notification(&buffer, serial);
    assert_eq!(notification.frames.len(), 3);
    assert_eq!(notification.events.len(), 2);
    assert_eq!(notification.left_over, 3);
    for event in &notification.events {
        match event {
            DeviceEvent::LogAppended(s, sequence_number, temperatures) => {
                assert_eq!(*s, serial);
                assert_eq!(*sequence_number, 9);
                assert_eq!(temperatures[0], Temperature::new(1390));
            }
            other => panic!("not a log record: {:?}", other),
        }
        assert_eq!(
            event.sync_message_for(serial),
            Some(SyncMessages::LogReceived(9))
        );
    }
}

#[test]
fn the_status_read_from_a_probe_tells_the_window() {
    let serial = SerialNumber { number: 42 };
    let event = probe_status_event(&status_bytes(), serial).unwrap();
    assert_eq!(
        event.sync_message_for(serial),
        Some(SyncMessages::LogRangeAvailable(0, 99))
    );
    assert_eq!(
        probe_status_event(&status_bytes()[..47], serial),
        Err(DecodeError::Truncated)
    );
}

fn advertisement(product: u8) -> ManufacturerSpecificData {
    let data = vec![
        0x09, 0xC7, product, 0xed, 0x1d, 0x00, 0x10, 0x5c, 0x03, 0x6d, 0xb8, 0x0d, 0xb7, 0x11,
        0x37, 0xe2, 0xc6, 0xd9, 0xf8, 0x1a, 0x00, 0xc0, 0x00, 0x00,
    ];
    ManufacturerSpecificData::try_from(&data).unwrap()
}

#[test]
fn a_device_is_picked_by_its_product_type() {
    let node = advertisement(2);
    let probe = advertisement(1);
    let unknown = advertisement(0);
    assert_eq!(select_device(&node, None), Some(DeviceKind::Node));
    assert_eq!(select_device(&probe, None), Some(DeviceKind::Probe));
    assert_eq!(select_device(&unknown, None), None);
    assert_eq!(
        select_device(&node, Some(ProductType::MeatNetRepeater)),
        Some(DeviceKind::Node)
    );
    assert_eq!(
        select_device(&node, Some(ProductType::PredictiveProbe)),
        None
    );
    assert_eq!(
        select_device(&probe, Some(ProductType::PredictiveProbe)),
        Some(DeviceKind::Probe)
    );
    assert_eq!(select_device(&unknown, Some(ProductType::Unknown)), None);
}

#[test]
fn a_find_device_error_says_what_went_wrong() {
    let error = FindDeviceError {
        details: "Unable to find version".to_string(),
    };
    assert_eq!(error.description(), "Unable to find version");
}
