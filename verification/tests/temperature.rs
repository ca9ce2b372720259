use meatnet::error::DecodeError;
use meatnet::temperature::{
    decode_temperatures, pack_temperatures, parse_raw_temperature_data, Temperature,
};

const BLOCK: [u8; 13] = [
    0x4a, 0x63, 0x69, 0x2c, 0x8d, 0xa5, 0x31, 0x35, 0xaa, 0x46, 0xd5, 0xc0, 0x1a,
];

fn readings() -> [Temperature; 8] {
    [
        Temperature::new(842),
        Temperature::new(843),
        Temperature::new(843),
        Temperature::new(843),
        Temperature::new(851),
        Temperature::new(853),
        Temperature::new(853),
        Temperature::new(856),
    ]
}

#[test]
fn test_parse_raw_temperature_data() {
    let data = [
        0x4a, 0x63, 0x69, 0x2c, 0x8d, 0xa5, 0x31, 0x35, 0xaa, 0x46, 0xd5, 0xc0, 0x1a,
    ];

    let (rest, raw_temperatures) = match parse_raw_temperature_data(&data) {
        Ok((rest, raw_temperatures)) => (rest, raw_temperatures),
        Err(e) => panic!("Error: {:?}", e),
    };
    assert_eq!(
        raw_temperatures,
        [
            Temperature::new(842),
            Temperature::new(843),
            Temperature::new(843),
            Temperature::new(843),
            Temperature::new(851),
            Temperature::new(853),
            Temperature::new(853),
            Temperature::new(856),
        ]
    );
    assert_eq!(rest.len(), 0);
}

#[test]
fn lib_test_parse_raw_temperature_data() {
    let data: [u8; 13] = [
        0x4a, 0x63, 0x69, 0x2c, 0x8d, 0xa5, 0x31, 0x35, 0xaa, 0x46, 0xd5, 0xc0, 0x1a,
    ];

    let raw_temperatures = match decode_temperatures(&data) {
        Ok(raw_temperatures) => raw_temperatures,
        Err(e) => panic!("Error: {:?}", e),
    };
    assert_eq!(
        raw_temperatures,
        [
            Temperature::new(842),
            Temperature::new(843),
            Temperature::new(843),
            Temperature::new(843),
            Temperature::new(851),
            Temperature::new(853),
            Temperature::new(853),
            Temperature::new(856),
        ]
    );
}

#[test]
fn a_block_needs_thirteen_bytes() {
    assert_eq!(decode_temperatures(&BLOCK[..12]), Err(DecodeError::Truncated));
    assert_eq!(decode_temperatures(&[]), Err(DecodeError::Truncated));
    assert_eq!(
        parse_raw_temperature_data(&BLOCK[..12]),
        Err(DecodeError::Truncated)
    );
}

#[test]
fn what_follows_a_block_is_handed_back() {
    let mut data = BLOCK.to_vec();
    data.extend_from_slice(&[0xaa, 0xbb]);
    let (rest, raw_temperatures) = parse_raw_temperature_data(&data).unwrap();
    assert_eq!(raw_temperatures, readings());
    assert_eq!(rest, &[0xaa, 0xbb]);
    assert_eq!(decode_temperatures(&data), Ok(readings()));
}

#[test]
fn packing_what_was_unpacked_gives_the_bytes_back() {
    assert_eq!(pack_temperatures(&readings()), Some(BLOCK));
    let blocks: [[u8; 13]; 4] = [
        [0; 13],
        [0xff; 13],
        [0x01, 0x23, 0x45, 0x67, 0x89, 0xab, 0xcd, 0xef, 0x10, 0x32, 0x54, 0x76, 0x98],
        [0x5c, 0x03, 0x6d, 0xb8, 0x0d, 0xb7, 0x11, 0x37, 0xe2, 0xc6, 0xd9, 0xf8, 0x1a],
    ];
    for block in blocks {
        let unpacked = decode_temperatures(&block).unwrap();
        assert_eq!(pack_temperatures(&unpacked), Some(block));
    }
}

#[test]
fn unpacking_what_was_packed_gives_the_readings_back() {
    let mut t = readings();
    t[0] = Temperature::new(0);
    t[7] = Temperature::new(0x1fff);
    let block = pack_temperatures(&t).unwrap();
    assert_eq!(decode_temperatures(&block), Ok(t));
}

#[test]
fn fields_are_little_endian_from_the_lowest_bit() {
    // Only the lowest bit of the first byte set: field 0 is 1.
    let mut block = [0u8; 13];
    block[0] = 0x01;
    let t = decode_temperatures(&block).unwrap();
    assert_eq!(t[0].get_raw_value(), 1);
    // Bit 13 of the stream is bit 5 of the second byte: field 1 is 1.
    let mut block = [0u8; 13];
    block[1] = 0x20;
    let t = decode_temperatures(&block).unwrap();
    assert_eq!(t[0].get_raw_value(), 0);
    assert_eq!(t[1].get_raw_value(), 1);
    // The highest bit of the last byte is the highest bit of field 7.
    let mut block = [0u8; 13];
    block[12] = 0x80;
    let t = decode_temperatures(&block).unwrap();
    assert_eq!(t[7].get_raw_value(), 0x1000);
}

#[test]
fn a_reading_above_thirteen_bits_cannot_be_packed() {
    let mut t = readings();
    t[3] = Temperature::new(0x2000);
    assert_eq!(pack_temperatures(&t), None);
    t[3] = Temperature::new(0xffff);
    assert_eq!(pack_temperatures(&t), None);
}

#[test]
fn celsius_is_a_twentieth_of_raw_less_twenty() {
    assert_eq!(Temperature::new(0).get_centi_celsius(), -2000);
    assert_eq!(Temperature::new(400).get_centi_celsius(), 0);
    assert_eq!(Temperature::new(842).get_centi_celsius(), 2210);
    assert_eq!(Temperature::new(u16::MAX).get_centi_celsius(), 325675);
    for raw in [0u16, 1, 399, 400, 842, 8191, 65535] {
        let t = Temperature::new(raw);
        let celsius = raw as f64 * 0.05 - 20.0;
        assert!((t.get_centi_celsius() as f64 / 100.0 - celsius).abs() < 1e-9);
    }
}

#[test]
fn fahrenheit_is_nine_fifths_of_celsius_plus_thirty_two() {
    assert_eq!(Temperature::new(0).get_centi_fahrenheit(), -400);
    assert_eq!(Temperature::new(400).get_centi_fahrenheit(), 3200);
    assert_eq!(Temperature::new(2400).get_centi_fahrenheit(), 21200);
    for raw in [0u16, 1, 399, 400, 842, 8191, 65535] {
        let t = Temperature::new(raw);
        let celsius = raw as f64 * 0.05 - 20.0;
        let fahrenheit = celsius * 9.0 / 5.0 + 32.0;
        assert!((t.get_centi_fahrenheit() as f64 / 100.0 - fahrenheit).abs() < 1e-9);
        assert_eq!(
            5 * (t.get_centi_fahrenheit() - 3200),
            9 * t.get_centi_celsius()
        );
    }
}
