use meatnet::error::FrameError;
use meatnet::types::{MacAddress, ProductType, SerialNumber};
use meatnet::uart::node::request as node_request;
use meatnet::uart::request;
use meatnet::uart::request::Request;
use meatnet::uart::{MessageType, NodeMessage};

// Test that NodeMessages can be converted from a request to bytes
#[test]
fn mod_test_heartbeat_message_to_bytes() {
    let heartbeat_message =
        request::RequestType::HeartbeatMessage(node_request::HeartbeatMessage {
            node_serial_number: [84, 49, 48, 48, 48, 48, 48, 51, 75, 86],
            mac_address: MacAddress {
                address: [0xc1, 0x88, 0x0b, 0xca, 0x6e, 0x81],
            },
            product_type: ProductType::MeatNetRepeater,
            hop_count: 0,
            is_inbound: node_request::Direction::Inbound,
            connection_details: [
                node_request::ConnectionDetailRecord {
                    serial_number: [0, 0, 0, 0, 0, 0, 0, 0, 0, 0],
                    product_type: ProductType::Unknown,
                    attributes: node_request::Attributes {
                        connection_detail_record_is_populated: false,
                    },
                    rssi: 0,
                },
                node_request::ConnectionDetailRecord {
                    serial_number: [0, 0, 0, 0, 0, 0, 0, 0, 0, 0],
                    product_type: ProductType::MeatNetRepeater,
                    attributes: node_request::Attributes {
                        connection_detail_record_is_populated: true,
                    },
                    rssi: 199,
                },
                node_request::ConnectionDetailRecord {
                    serial_number: [57, 15, 2, 0, 0, 0, 0, 0, 0, 0],
                    product_type: ProductType::MeatNetRepeater,
                    attributes: node_request::Attributes {
                        connection_detail_record_is_populated: true,
                    },
                    rssi: 211,
                },
                node_request::ConnectionDetailRecord {
                    serial_number: [0, 0, 0, 0, 0, 0, 0, 0, 0, 0],
                    product_type: ProductType::Unknown,
                    attributes: node_request::Attributes {
                        connection_detail_record_is_populated: false,
                    },
                    rssi: 0,
                },
            ],
        });

    let nm = NodeMessage::new(MessageType::Request(
        Request::new_with_id(heartbeat_message, 0xa850cd42).unwrap(),
    ))
    .unwrap();
    nm.to_bytes()
        .unwrap()
        .iter()
        .for_each(|b| println!("{:02x} ", b));

    assert_eq!(
        nm.to_bytes().unwrap(),
        vec![
            0xca, 0xfe, 0x76, 0x44, 0x49, 0x42, 0xcd, 0x50, 0xa8, 0x47, 0x54, 0x31, 0x30, 0x30,
            0x30, 0x30, 0x30, 0x33, 0x4b, 0x56, 0xc1, 0x88, 0x0b, 0xca, 0x6e, 0x81, 0x02, 0x00,
            0x01, 0x00, 0x00, 0x00, 0x00, 0x00, 0x00, 0x00, 0x00, 0x00, 0x00, 0x00, 0x00, 0x00,
            0x00, 0x00, 0x00, 0x00, 0x00, 0x00, 0x00, 0x00, 0x00, 0x00, 0x02, 0x01, 0xc7, 0x39,
            0x0f, 0x02, 0x00, 0x00, 0x00, 0x00, 0x00, 0x00, 0x00, 0x02, 0x01, 0xd3, 0x00, 0x00,
            0x00, 0x00, 0x00, 0x00, 0x00, 0x00, 0x00, 0x00, 0x00, 0x00, 0x00
        ]
    );
}

#[test]
fn mod_test_session_information_message_to_bytes() {
    let read_session_information =
        request::RequestType::ReadSessionInformation(node_request::ReadSessionInformation {
            serial_number: SerialNumber { number: 0x10001DED },
        });

    let nm = NodeMessage::new(MessageType::Request(
        Request::new_with_id(read_session_information, 0xa850cd42).unwrap(),
    ))
    .unwrap();

    let expected = vec![
        0xca, 0xfe, 0xe9, 0xb5, 0x03, 0x42, 0xcd, 0x50, 0xa8, 0x04, 0xed, 0x1d, 0x00, 0x10,
    ];

    assert_eq!(nm.to_bytes().unwrap(), expected,)
}

#[test]
fn a_node_message_decodes_either_kind() {
    let request_frame = vec![
        0xca, 0xfe, 0xe9, 0xb5, 0x03, 0x42, 0xcd, 0x50, 0xa8, 0x04, 0xed, 0x1d, 0x00, 0x10,
    ];
    let (rest, message) = NodeMessage::from_bytes(&request_frame).unwrap();
    assert!(rest.is_empty());
    assert_eq!(message.message_type_id, 0);
    assert_eq!(message.crc, 0xb5e9);
    match message.message_type {
        MessageType::Request(r) => {
            assert_eq!(r.request_type, 3);
            assert_eq!(r.request_id, 0xa850cd42);
            assert_eq!(r.payload_length, 4);
        }
        other => panic!("not a request: {:?}", other),
    }
    assert_eq!(message.to_bytes().unwrap(), request_frame);

    let response_frame = vec![
        0xca, 0xfe, 0xc2, 0x8, 0x84, 0xb3, 0x69, 0x4c, 0xa, 0x42, 0x4f, 0x95, 0x44, 0x1, 0x1c,
        0xed, 0x1d, 0x0, 0x10, 0x2, 0x0, 0x0, 0x0, 0x26, 0x24, 0x80, 0x5c, 0x90, 0x13, 0xc2, 0x3d,
        0x56, 0xc7, 0xe4, 0x98, 0x1c, 0xe0, 0x0, 0x0, 0xfe, 0xff, 0xd7, 0x7,
    ];
    let (rest, message) = NodeMessage::from_bytes(&response_frame).unwrap();
    assert!(rest.is_empty());
    assert_eq!(message.message_type_id, 1);
    match message.message_type {
        MessageType::Response(r) => {
            assert_eq!(r.response_type, 4);
            assert_eq!(r.request_id, 172779955);
            assert_eq!(r.response_id, 1150635842);
            assert!(r.success);
            assert_eq!(r.payload_length, 28);
        }
        other => panic!("not a response: {:?}", other),
    }
    // A response is never written.
    assert_eq!(message.to_bytes(), Err(FrameError::Direction));
    assert_eq!(
        NodeMessage::new(message.message_type),
        Err(FrameError::Direction)
    );
}

#[test]
fn a_request_in_a_node_message_gets_a_fresh_id() {
    let message = request::RequestType::SetProbeId(node_request::SetProbeId {});
    let request = Request::new(message).unwrap();
    assert_eq!(request.request_type, 1);
    assert_eq!(request.payload_length, 0);
    let ids: Vec<u32> = (0..8)
        .map(|_| Request::new(message).unwrap().request_id)
        .collect();
    assert!(ids.iter().any(|id| *id != ids[0]));
}

#[test]
fn the_checksum_of_a_node_message_is_over_the_message_itself() {
    let message =
        request::RequestType::ReadSessionInformation(node_request::ReadSessionInformation {
            serial_number: SerialNumber { number: 0x10001DED },
        });
    // Type and length were set by hand and are not those of the message.
    let by_hand = Request {
        request_type: 0x7f,
        request_id: 0xa850cd42,
        payload_length: 9,
        message,
    };
    let nm = NodeMessage::new(MessageType::Request(by_hand)).unwrap();
    assert_eq!(nm.crc, 0xb5e9);
    assert_eq!(nm.message_type_id, 0);
    assert_eq!(nm.message_type, MessageType::Request(by_hand));
    // The frame carries the fields as they are, under that checksum.
    assert_eq!(
        nm.to_bytes().unwrap(),
        vec![0xca, 0xfe, 0xe9, 0xb5, 0x7f, 0x42, 0xcd, 0x50, 0xa8, 0x09, 0xed, 0x1d, 0x00, 0x10]
    );
}
