use meatnet::error::FrameError;
use meatnet::types::{MacAddress, ProductType, SerialNumber};
use meatnet::uart::node::request::{
    Attributes, ConnectionDetailRecord, Direction, HeartbeatMessage, ReadSessionInformation,
    Request, RequestMessage,
};

fn heartbeat() -> RequestMessage {
    RequestMessage::HeartbeatMessage(HeartbeatMessage {
        node_serial_number: [84, 49, 48, 48, 48, 48, 48, 51, 75, 86],
        mac_address: MacAddress {
            address: [0xc1, 0x88, 0x0b, 0xca, 0x6e, 0x81],
        },
        product_type: ProductType::MeatNetRepeater,
        hop_count: 0,
        is_inbound: Direction::Inbound,
        connection_details: [
            ConnectionDetailRecord {
                serial_number: [0, 0, 0, 0, 0, 0, 0, 0, 0, 0],
                product_type: ProductType::Unknown,
                attributes: Attributes {
                    connection_detail_record_is_populated: false,
                },
                rssi: 0,
            },
            ConnectionDetailRecord {
                serial_number: [0, 0, 0, 0, 0, 0, 0, 0, 0, 0],
                product_type: ProductType::MeatNetRepeater,
                attributes: Attributes {
                    connection_detail_record_is_populated: true,
                },
                rssi: 199,
            },
            ConnectionDetailRecord {
                serial_number: [57, 15, 2, 0, 0, 0, 0, 0, 0, 0],
                product_type: ProductType::MeatNetRepeater,
                attributes: Attributes {
                    connection_detail_record_is_populated: true,
                },
                rssi: 211,
            },
            ConnectionDetailRecord {
                serial_number: [0, 0, 0, 0, 0, 0, 0, 0, 0, 0],
                product_type: ProductType::Unknown,
                attributes: Attributes {
                    connection_detail_record_is_populated: false,
                },
                rssi: 0,
            },
        ],
    })
}

fn heartbeat_frame() -> Vec<u8> {
    vec![
        0xca, 0xfe, 0x76, 0x44, 0x49, 0x42, 0xcd, 0x50, 0xa8, 0x47, 0x54, 0x31, 0x30, 0x30,
        0x30, 0x30, 0x30, 0x33, 0x4b, 0x56, 0xc1, 0x88, 0x0b, 0xca, 0x6e, 0x81, 0x02, 0x00,
        0x01, 0x00, 0x00, 0x00, 0x00, 0x00, 0x00, 0x00, 0x00, 0x00, 0x00, 0x00, 0x00, 0x00,
        0x00, 0x00, 0x00, 0x00, 0x00, 0x00, 0x00, 0x00, 0x00, 0x00, 0x02, 0x01, 0xc7, 0x39,
        0x0f, 0x02, 0x00, 0x00, 0x00, 0x00, 0x00, 0x00, 0x00, 0x02, 0x01, 0xd3, 0x00, 0x00,
        0x00, 0x00, 0x00, 0x00, 0x00, 0x00, 0x00, 0x00, 0x00, 0x00, 0x00,
    ]
}

// A request turns into the bytes that a node was seen to accept.
#[test]
fn request_test_heartbeat_message_to_bytes() {
    let nm = Request::new_with_id(heartbeat(), 0xa850cd42).unwrap();
    nm.to_bytes()
        .unwrap()
        .iter()
        .for_each(|b| println!("{:02x} ", b));

    assert_eq!(nm.to_bytes().unwrap(), heartbeat_frame());
}

#[test]
fn request_test_session_information_message_to_bytes() {
    let read_session_information = RequestMessage::ReadSessionInformation(ReadSessionInformation {
        serial_number: SerialNumber { number: 0x10001DED },
    });

    let nm = Request::new_with_id(read_session_information, 0xa850cd42).unwrap();

    let expected = vec![
        0xca, 0xfe, 0xe9, 0xb5, 0x03, 0x42, 0xcd, 0x50, 0xa8, 0x04, 0xed, 0x1d, 0x00, 0x10,
    ];

    assert_eq!(nm.to_bytes().unwrap(), expected)
}

#[test]
fn heartbeat_frame_decodes_to_the_message_it_was_made_from() {
    let frame = heartbeat_frame();
    let (rest, request) = Request::from_bytes(&frame).unwrap();
    assert!(rest.is_empty());
    assert_eq!(request.message, heartbeat());
    assert_eq!(request.request_header.request_id, 0xa850cd42);
    assert_eq!(request.request_header.crc, 0x4476);
    assert_eq!(request.request_header.payload_length, 71);
    assert_eq!(Request::try_from(&frame), Ok(request));
}

#[test]
fn corrupted_frame_fails_the_integrity_check() {
    let mut frame = heartbeat_frame();
    frame[30] ^= 0x01;
    assert_eq!(Request::from_bytes(&frame), Err(FrameError::Integrity));
}
