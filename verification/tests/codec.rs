use meatnet::error::{DecodeError, FrameError};
use meatnet::types::{MacAddress, SerialNumber};
use meatnet::uart::node::request::{
    ReadLogs, Request, RequestMessage, SetProbeColor, SetProbeId, SyncThermometer,
    SyncThermometerList,
};
use meatnet::uart::probe::request::RequestType;
use meatnet::uart::{decode, encode_request, AnyMessage, AnyRequest, Dialect};

fn crc16(data: &[u8]) -> u16 {
    let mut crc: u16 = 0xffff;
    for byte in data {
        crc ^= (*byte as u16) << 8;
        for _ in 0..8 {
            crc = if crc & 0x8000 != 0 {
                (crc << 1) ^ 0x1021
            } else {
                crc << 1
            };
        }
    }
    crc
}

#[test]
fn the_checksum_is_crc_16_ibm_3740() {
    // The check value of the algorithm: the checksum of "123456789".
    assert_eq!(crc16(b"123456789"), 0x29b1);
    let messages = [
        RequestMessage::SetProbeId(SetProbeId {}),
        RequestMessage::SetProbeColor(SetProbeColor {}),
        RequestMessage::ReadLogs(ReadLogs {
            probe_serial_number: SerialNumber { number: 0x10001ded },
            sequence_number_start: 0,
            sequence_number_end: 9,
        }),
    ];
    for message in messages {
        let request = Request::new_with_id(message, 0x01020304).unwrap();
        let frame = request.to_bytes().unwrap();
        assert_eq!(request.request_header.crc, crc16(&frame[4..]));
        assert_eq!(frame[2], (request.request_header.crc & 0xff) as u8);
        assert_eq!(frame[3], (request.request_header.crc >> 8) as u8);
    }
    // Bit by bit and from the table give the same, whatever the bytes.
    let mut id: u32 = 1;
    for _ in 0..200 {
        id = id.wrapping_mul(1664525).wrapping_add(1013904223);
        let message = RequestMessage::ReadLogs(ReadLogs {
            probe_serial_number: SerialNumber { number: !id },
            sequence_number_start: id.rotate_left(7),
            sequence_number_end: id.rotate_left(19),
        });
        let request = Request::new_with_id(message, id).unwrap();
        let frame = request.to_bytes().unwrap();
        assert_eq!(request.request_header.crc, crc16(&frame[4..]));
    }
}

#[test]
fn request_ids_are_drawn_afresh() {
    let message = RequestMessage::SetProbeId(SetProbeId {});
    let ids: Vec<u32> = (0..8)
        .map(|_| Request::new(message).unwrap().request_header.request_id)
        .collect();
    assert!(ids.iter().any(|id| *id != ids[0]));
    let request = message.encapsulate().unwrap();
    assert_eq!(request.message, message);
    assert_eq!(request.request_header.request_type, 1);
    assert_eq!(request.request_header.payload_length, 0);
}

#[test]
fn a_request_for_logs_to_a_node_names_the_probe() {
    let message = RequestMessage::ReadLogs(ReadLogs {
        probe_serial_number: SerialNumber { number: 0x10001ded },
        sequence_number_start: 10,
        sequence_number_end: 19,
    });
    assert_eq!(message.id(), 0x04);
    assert_eq!(
        message.to_bytes().unwrap(),
        vec![0xed, 0x1d, 0x00, 0x10, 10, 0, 0, 0, 19, 0, 0, 0]
    );
    let frame = encode_request(&AnyRequest::Node(message), Some(0xa850cd42)).unwrap();
    assert_eq!(&frame[..2], &[0xca, 0xfe]);
    assert_eq!(&frame[4..10], &[0x04, 0x42, 0xcd, 0x50, 0xa8, 12]);
    assert_eq!(&frame[10..], message.to_bytes().unwrap().as_slice());
    assert_eq!(
        frame,
        Request::new_with_id(message, 0xa850cd42)
            .unwrap()
            .to_bytes()
            .unwrap()
    );
    let drawn = encode_request(&AnyRequest::Node(message), None).unwrap();
    assert_eq!(drawn.len(), frame.len());
    assert_eq!(drawn[4], frame[4]);
    assert_eq!(&drawn[9..], &frame[9..]);
}

#[test]
fn a_request_for_logs_to_a_probe_has_no_id() {
    let message = RequestType::ReadLogs(meatnet::uart::probe::request::ReadLogs {
        sequence_number_start: 8,
        sequence_number_end: 10,
    });
    let expected = vec![
        0xca, 0xfe, 0x82, 0x13, 0x04, 0x08, 0x08, 0x00, 0x00, 0x00, 0x0a, 0x00, 0x00, 0x00,
    ];
    assert_eq!(
        encode_request(&AnyRequest::Probe(message), None).unwrap(),
        expected
    );
    assert_eq!(
        encode_request(&AnyRequest::Probe(message), Some(5)).unwrap(),
        expected
    );
}

#[test]
fn a_thermometer_list_round_trips() {
    let message = RequestMessage::SyncThermometerList(SyncThermometerList {
        mac_address: MacAddress {
            address: [1, 2, 3, 4, 5, 6],
        },
        sync_thermometers: [
            SyncThermometer {
                present: true,
                serial_number: SerialNumber { number: 0x10001ded },
            },
            SyncThermometer {
                present: false,
                serial_number: SerialNumber { number: 0 },
            },
            SyncThermometer {
                present: true,
                serial_number: SerialNumber { number: 0xffffffff },
            },
            SyncThermometer {
                present: false,
                serial_number: SerialNumber { number: 7 },
            },
        ],
    });
    assert_eq!(
        message.to_bytes().unwrap(),
        vec![
            1, 2, 3, 4, 5, 6, 1, 0xed, 0x1d, 0x00, 0x10, 0, 0, 0, 0, 0, 1, 0xff, 0xff, 0xff,
            0xff, 0, 7, 0, 0, 0
        ]
    );
    let request = Request::new_with_id(message, 9).unwrap();
    let mut frame = request.to_bytes().unwrap();
    assert_eq!(frame[4], 0x4b);
    assert_eq!(frame[9], 26);
    assert_eq!(Request::try_from(&frame), Ok(request));
    // A flag has to be 0 or 1.
    frame[10 + 6] = 2;
    let crc = crc16(&frame[4..]);
    frame[2] = (crc & 0xff) as u8;
    frame[3] = (crc >> 8) as u8;
    assert_eq!(
        Request::try_from(&frame),
        Err(FrameError::Structure(DecodeError::InvalidFlag))
    );
}

#[test]
fn frames_are_decoded_by_dialect() {
    let node_request = vec![
        0xca, 0xfe, 0xe9, 0xb5, 0x03, 0x42, 0xcd, 0x50, 0xa8, 0x04, 0xed, 0x1d, 0x00, 0x10,
    ];
    let node_response = vec![
        0xca, 0xfe, 0xc2, 0x8, 0x84, 0xb3, 0x69, 0x4c, 0xa, 0x42, 0x4f, 0x95, 0x44, 0x1, 0x1c,
        0xed, 0x1d, 0x0, 0x10, 0x2, 0x0, 0x0, 0x0, 0x26, 0x24, 0x80, 0x5c, 0x90, 0x13, 0xc2, 0x3d,
        0x56, 0xc7, 0xe4, 0x98, 0x1c, 0xe0, 0x0, 0x0, 0xfe, 0xff, 0xd7, 0x7,
    ];
    let probe_response = vec![202, 254, 188, 168, 3, 1, 6, 188, 254, 245, 34, 136, 19];
    match decode(&node_request, Dialect::Node) {
        Ok((rest, AnyMessage::NodeRequest(request))) => {
            assert!(rest.is_empty());
            assert_eq!(request.request_header.request_id, 0xa850cd42);
        }
        other => panic!("not a request: {:?}", other),
    }
    match decode(&node_response, Dialect::Node) {
        Ok((rest, AnyMessage::NodeResponse(response))) => {
            assert!(rest.is_empty());
            assert_eq!(response.header.response_id, 1150635842);
        }
        other => panic!("not a response: {:?}", other),
    }
    match decode(&probe_response, Dialect::Probe) {
        Ok((rest, AnyMessage::ProbeResponse(response))) => {
            assert!(rest.is_empty());
            assert_eq!(response.response_type, 3);
        }
        other => panic!("not a response: {:?}", other),
    }
    // The error is that of the decoder that the type byte selects.
    let mut corrupted = node_request.clone();
    corrupted[12] ^= 1;
    assert_eq!(decode(&corrupted, Dialect::Node), Err(FrameError::Integrity));
    let mut corrupted = node_response.clone();
    corrupted[30] ^= 1;
    assert_eq!(decode(&corrupted, Dialect::Node), Err(FrameError::Integrity));
    assert_eq!(
        decode(&node_request[..3], Dialect::Node),
        Err(FrameError::Structure(DecodeError::Truncated))
    );
    let mut unknown = node_request.clone();
    unknown[4] = 0x7f;
    let crc = crc16(&unknown[4..]);
    unknown[2] = (crc & 0xff) as u8;
    unknown[3] = (crc >> 8) as u8;
    assert_eq!(
        decode(&unknown, Dialect::Node),
        Err(FrameError::Structure(DecodeError::UnknownDiscriminator))
    );
}
