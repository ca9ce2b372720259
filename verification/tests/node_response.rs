use meatnet::error::{DecodeError, FrameError};
use meatnet::temperature::Temperature;
use meatnet::types::SerialNumber;
use meatnet::uart::node::request::{Request, RequestMessage};
use meatnet::uart::node::response::{
    ReadLogs, ReadSessionInformation, Response, ResponseHeader, ResponseMessage,
};
use meatnet::uart::node::{try_request_or_response_from, MessageType};

fn read_logs_frame() -> Vec<u8> {
    vec![
        0xca, 0xfe, 0xc2, 0x8, 0x84, 0xb3, 0x69, 0x4c, 0xa, 0x42, 0x4f, 0x95, 0x44, 0x1, 0x1c,
        0xed, 0x1d, 0x0, 0x10, 0x2, 0x0, 0x0, 0x0, 0x26, 0x24, 0x80, 0x5c, 0x90, 0x13, 0xc2, 0x3d,
        0x56, 0xc7, 0xe4, 0x98, 0x1c, 0xe0, 0x0, 0x0, 0xfe, 0xff, 0xd7, 0x7,
    ]
}

fn session_request_frame() -> Vec<u8> {
    vec![
        0xca, 0xfe, 0xe9, 0xb5, 0x03, 0x42, 0xcd, 0x50, 0xa8, 0x04, 0xed, 0x1d, 0x00, 0x10,
    ]
}

// CRC-16/IBM-3740 of `data`, computed bit by bit.
fn crc16(data: &[u8]) -> u16 {
    let mut crc: u16 = 0xffff;
    for byte in data {
        crc ^= (*byte as u16) << 8;
        for _ in 0..8 {
            crc = if crc & 0x8000 != 0 {
                (crc << 1) ^ 0x1021
            } else {
                crc << 1
            };
        }
    }
    crc
}

// Puts the checksum of what follows it into a frame.
fn seal(frame: &mut Vec<u8>) {
    let crc = crc16(&frame[4..]);
    frame[2] = (crc & 0xff) as u8;
    frame[3] = (crc >> 8) as u8;
}

#[test]
fn test_wont_parse_request() {
    let expected = vec![
        0xca, 0xfe, 0xe9, 0xb5, 0x03, 0x42, 0xcd, 0x50, 0xa8, 0x04, 0xed, 0x1d, 0x00, 0x10,
    ];

    assert_eq!(
        Err(FrameError::Direction),
        Response::from_bytes(expected.as_slice())
    )
}

#[test]
fn response_test_wont_parse_request() {
    let data = vec![
        0xca, 0xfe, 0xe9, 0xb5, 0x03, 0x42, 0xcd, 0x50, 0xa8, 0x04, 0xed, 0x1d, 0x00, 0x10,
    ];

    assert_eq!(
        Err(FrameError::Direction),
        Response::from_bytes(data.as_slice())
    )
}

#[test]
fn a_request_is_no_response_however_it_is_decoded() {
    let data = session_request_frame();
    assert_eq!(Err(FrameError::Direction), Response::try_from(&data));
    // The same buffer is a sound request.
    assert!(Request::try_from(&data).is_ok());
}

#[test]
fn a_response_is_no_request() {
    assert_eq!(
        Request::from_bytes(&read_logs_frame()),
        Err(FrameError::Direction)
    );
}

#[test]
fn readlogs_test_parse_read_logs_response() {
    let data = vec![
        0xca, 0xfe, 0xc2, 0x8, 0x84, 0xb3, 0x69, 0x4c, 0xa, 0x42, 0x4f, 0x95, 0x44, 0x1, 0x1c,
        0xed, 0x1d, 0x0, 0x10, 0x2, 0x0, 0x0, 0x0, 0x26, 0x24, 0x80, 0x5c, 0x90, 0x13, 0xc2, 0x3d,
        0x56, 0xc7, 0xe4, 0x98, 0x1c, 0xe0, 0x0, 0x0, 0xfe, 0xff, 0xd7, 0x7,
    ];
    let read_logs = ReadLogs {
        probe_serial_number: SerialNumber { number: 268443117 },
        sequence_number: 2,
        temperatures: [
            Temperature::new(1062),
            Temperature::new(1025),
            Temperature::new(1047),
            Temperature::new(1063),
            Temperature::new(988),
            Temperature::new(939),
            Temperature::new(915),
            Temperature::new(915),
        ],
        virtual_ambient_sensor: 3,
        virtual_surface_sensor: 0,
        virtual_core_sensor: 0,
        virtual_sensors_and_state: [0, 0, 254, 255, 215, 7],
    };

    let expected = Response {
        header: ResponseHeader {
            crc: 2242,
            response_type: 132,
            request_id: 172779955,
            response_id: 1150635842,
            success: true,
            payload_length: 28,
        },
        message: ResponseMessage::ReadLogs(read_logs),
    };
    assert_eq!(expected, Response::try_from(data.as_slice()).unwrap());
}

#[test]
fn virtual_sensors_of_a_log_record_pick_by_fixed_offsets() {
    let response = Response::try_from(&read_logs_frame()).unwrap();
    let record = match response.message {
        ResponseMessage::ReadLogs(record) => record,
        other => panic!("not a log record: {:?}", other),
    };
    assert!(record.is_well_formed());
    assert_eq!(*record.get_virtual_core_temperature(), Temperature::new(1062));
    assert_eq!(
        *record.get_virtual_surface_temperature(),
        Temperature::new(1063)
    );
    assert_eq!(
        *record.get_vitrual_ambient_temperature(),
        Temperature::new(915)
    );
}

#[test]
fn sensor_selection_of_a_log_record_skips_the_top_bit() {
    let mut frame = read_logs_frame();
    // ambient 2, surface 1, core 5, top bit clear
    frame[36] = 0b0_10_01_101;
    seal(&mut frame);
    let response = Response::try_from(&frame).unwrap();
    match response.message {
        ResponseMessage::ReadLogs(record) => {
            assert_eq!(record.virtual_ambient_sensor, 2);
            assert_eq!(record.virtual_surface_sensor, 1);
            assert_eq!(record.virtual_core_sensor, 5);
        }
        other => panic!("not a log record: {:?}", other),
    }
}

#[test]
fn response_errors_come_in_the_order_of_the_checks() {
    let good = read_logs_frame();
    assert_eq!(
        Response::from_bytes(&good[..1]),
        Err(FrameError::Structure(DecodeError::Truncated))
    );
    let mut bad_magic = good.clone();
    bad_magic[1] = 0xff;
    assert_eq!(
        Response::from_bytes(&bad_magic),
        Err(FrameError::Structure(DecodeError::MagicMismatch))
    );
    assert_eq!(
        Response::from_bytes(&good[..4]),
        Err(FrameError::Structure(DecodeError::Truncated))
    );
    assert_eq!(
        Response::from_bytes(&good[..14]),
        Err(FrameError::Structure(DecodeError::Truncated))
    );
    assert_eq!(
        Response::from_bytes(&good[..42]),
        Err(FrameError::Structure(DecodeError::Truncated))
    );
    let mut flipped = good.clone();
    flipped[20] ^= 0x80;
    assert_eq!(Response::from_bytes(&flipped), Err(FrameError::Integrity));
    let mut bad_crc = good.clone();
    bad_crc[2] ^= 0x01;
    assert_eq!(Response::from_bytes(&bad_crc), Err(FrameError::Integrity));
    let mut bad_flag = good.clone();
    bad_flag[13] = 2;
    seal(&mut bad_flag);
    assert_eq!(
        Response::from_bytes(&bad_flag),
        Err(FrameError::Structure(DecodeError::InvalidFlag))
    );
    let mut unknown = good.clone();
    unknown[4] = 0x80 | 0x05;
    seal(&mut unknown);
    assert_eq!(
        Response::from_bytes(&unknown),
        Err(FrameError::Structure(DecodeError::UnknownDiscriminator))
    );
    // A session answer has ten bytes of payload, not twenty-eight.
    let mut wrong_length = good.clone();
    wrong_length[4] = 0x80 | 0x03;
    seal(&mut wrong_length);
    assert_eq!(
        Response::from_bytes(&wrong_length),
        Err(FrameError::Structure(DecodeError::PayloadLength))
    );
}

#[test]
fn session_information_and_set_probe_id_answers_decode() {
    let mut frame = vec![
        0xca, 0xfe, 0, 0, 0x83, 1, 0, 0, 0, 2, 0, 0, 0, 0, 10, 0xed, 0x1d, 0x00, 0x10, 0x78,
        0x56, 0x34, 0x12, 0x88, 0x13,
    ];
    seal(&mut frame);
    let response = Response::try_from(&frame).unwrap();
    assert_eq!(response.header.request_id, 1);
    assert_eq!(response.header.response_id, 2);
    assert!(!response.header.success);
    assert_eq!(
        response.message,
        ResponseMessage::ReadSessionInformation(ReadSessionInformation {
            probe_serial_number: SerialNumber { number: 0x10001ded },
            probe_session_id: 0x12345678,
            probe_sample_period: 5000,
        })
    );
    let mut frame = vec![0xca, 0xfe, 0, 0, 0x81, 1, 0, 0, 0, 2, 0, 0, 0, 1, 0];
    seal(&mut frame);
    let response = Response::try_from(&frame).unwrap();
    assert_eq!(response.message, ResponseMessage::SetProbeId);
    assert!(response.header.success);
}

#[test]
fn a_response_cannot_be_encoded() {
    let response = Response::try_from(&read_logs_frame()).unwrap();
    assert_eq!(response.to_bytes(), Err(FrameError::Direction));
}

#[test]
fn a_buffer_of_unknown_kind_is_tried_both_ways() {
    match try_request_or_response_from(&read_logs_frame()) {
        Ok(MessageType::Response(response)) => {
            assert_eq!(response.header.response_type, 0x84)
        }
        other => panic!("not a response: {:?}", other),
    }
    match try_request_or_response_from(&session_request_frame()) {
        Ok(MessageType::Request(request)) => match request.message {
            RequestMessage::ReadSessionInformation(m) => {
                assert_eq!(m.serial_number.number, 0x10001ded)
            }
            other => panic!("not a session request: {:?}", other),
        },
        other => panic!("not a request: {:?}", other),
    }
    let mut trailing = read_logs_frame();
    trailing.push(0);
    assert_eq!(
        try_request_or_response_from(&trailing),
        Err(FrameError::Structure(DecodeError::TrailingBytes))
    );
    // Where the first try fails on the shape of the buffer and the second
    // fails too, the error is that of the second, the response.
    let request = session_request_frame();
    assert_eq!(
        try_request_or_response_from(&request[..13]),
        Err(FrameError::Direction)
    );
    assert_eq!(
        Request::try_from(&request[..13]),
        Err(FrameError::Structure(DecodeError::Truncated))
    );
}

#[test]
fn a_request_with_a_wrong_checksum_fails_the_integrity_check() {
    // The checksum bytes are zeroed.
    let zeroed = vec![
        0xca, 0xfe, 0x00, 0x00, 0x03, 0x42, 0xcd, 0x50, 0xa8, 0x04, 0xed, 0x1d, 0x00, 0x10,
    ];
    assert_eq!(
        try_request_or_response_from(&zeroed),
        Err(FrameError::Integrity)
    );
    assert_eq!(Request::try_from(&zeroed), Err(FrameError::Integrity));
    // A byte that the checksum covers is changed.
    let mut corrupted = session_request_frame();
    corrupted[12] ^= 0x40;
    assert_eq!(
        try_request_or_response_from(&corrupted),
        Err(FrameError::Integrity)
    );
    assert_eq!(Request::try_from(&corrupted), Err(FrameError::Integrity));
    // So is a response with a wrong checksum, through the second try.
    let mut response = read_logs_frame();
    response[2] ^= 0x01;
    assert_eq!(
        try_request_or_response_from(&response),
        Err(FrameError::Integrity)
    );
}
