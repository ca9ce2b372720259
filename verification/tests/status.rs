use meatnet::advertisement::{
    ManufacturerSpecificData, ADVERTISEMENT_MAGIC, ADVERTISEMENT_MAGIC_SWAPPED,
};
use meatnet::error::DecodeError;
use meatnet::status::ProbeStatus;
use meatnet::temperature::Temperature;
use meatnet::types::{
    BatteryStatus, Color, Hops, Mode, NetworkInformation, ProductType, SerialNumber,
};

fn status_bytes() -> [u8; 49] {
    [
        0x00, 0x00, 0x00, 0x00, 0x63, 0x00, 0x00, 0x00, 0x4a, 0x63, 0x69, 0x2c, 0x8d, 0xa5, 0x31,
        0x35, 0xaa, 0x46, 0xd5, 0xc0, 0x1a, 0x00, 0xc0, 0x00, 0x00, 0x00, 0xf0, 0xff, 0xbf, 0x34,
        0x00, 0x00, 0x00, 0x00, 0x00, 0x00, 0x00, 0x00, 0x00, 0x00, 0x00, 0x00, 0x00, 0x00, 0x00,
        0x00, 0x00, 0x00, 0x00,
    ]
}

fn expected_status() -> ProbeStatus {
    ProbeStatus {
        log_start: 0,
        log_end: 99,
        temperatures: [
            Temperature::new(842),
            Temperature::new(843),
            Temperature::new(843),
            Temperature::new(843),
            Temperature::new(851),
            Temperature::new(853),
            Temperature::new(853),
            Temperature::new(856),
        ],
        probe_id: 0,
        color: Color::Yellow,
        mode: Mode::Normal,
        virtual_ambient_sensor: 3,
        virtual_surface_sensor: 0,
        virtual_core_sensor: 0,
        battery_status: BatteryStatus::Okay,
    }
}

#[test]
fn test_probe_status() {
    let data = [
        0x00, 0x00, 0x00, 0x00, 0x63, 0x00, 0x00, 0x00, 0x4a, 0x63, 0x69, 0x2c, 0x8d, 0xa5, 0x31,
        0x35, 0xaa, 0x46, 0xd5, 0xc0, 0x1a, 0x00, 0xc0, 0x00, 0x00, 0x00, 0xf0, 0xff, 0xbf, 0x34,
        0x00, 0x00, 0x00, 0x00, 0x00, 0x00, 0x00, 0x00, 0x00, 0x00, 0x00, 0x00, 0x00, 0x00, 0x00,
        0x00, 0x00, 0x00, 0x00,
    ];

    let (_, probe_status) = ProbeStatus::from_bytes(&data).unwrap();
    assert_eq!(
        probe_status,
        ProbeStatus {
            log_start: 0,
            log_end: 99,
            temperatures: [
                Temperature::new(842),
                Temperature::new(843),
                Temperature::new(843),
                Temperature::new(843),
                Temperature::new(851),
                Temperature::new(853),
                Temperature::new(853),
                Temperature::new(856),
            ],
            probe_id: 0,
            color: Color::Yellow,
            mode: Mode::Normal,
            virtual_ambient_sensor: 3,
            virtual_surface_sensor: 0,
            virtual_core_sensor: 0,
            battery_status: BatteryStatus::Okay,
        }
    );
}

#[test]
fn lib_test_probe_status() {
    let data = status_bytes();
    let (rest, probe_status) = ProbeStatus::from_bytes(&data).unwrap();
    assert_eq!(probe_status, expected_status());
    assert_eq!(rest.len(), 1);
    assert_eq!(ProbeStatus::read(&data, 0), expected_status());
}

#[test]
fn a_status_record_needs_forty_eight_bytes() {
    let data = status_bytes();
    assert_eq!(
        ProbeStatus::from_bytes(&data[..47]),
        Err(DecodeError::Truncated)
    );
    assert!(ProbeStatus::from_bytes(&data[..48]).is_ok());
}

#[test]
fn sub_byte_fields_of_a_status_record_are_taken_from_the_high_bits_down() {
    let mut data = status_bytes();
    // probe id 5, colour 1 (grey), mode 2 (reserved)
    data[21] = 0b101_001_10;
    // ambient 1, surface 2, core 6, battery low
    data[22] = 0b01_10_110_1;
    let (_, status) = ProbeStatus::from_bytes(&data).unwrap();
    assert_eq!(status.probe_id, 5);
    assert_eq!(status.color, Color::Grey);
    assert_eq!(status.mode, Mode::Reserved);
    assert_eq!(status.virtual_ambient_sensor, 1);
    assert_eq!(status.virtual_surface_sensor, 2);
    assert_eq!(status.virtual_core_sensor, 6);
    assert_eq!(status.battery_status, BatteryStatus::LowBattery);
    assert!(status.is_well_formed());
    assert_eq!(*status.get_core_temperature(), Temperature::new(853));
    assert_eq!(*status.get_surface_temperature(), Temperature::new(853));
    assert_eq!(*status.get_ambient_temperature(), Temperature::new(853));
}

#[test]
fn virtual_sensors_of_a_status_record_pick_by_fixed_offsets() {
    let status = expected_status();
    // core = temperatures[0], surface = temperatures[0 + 3], ambient = temperatures[3 + 4]
    assert_eq!(*status.get_core_temperature(), Temperature::new(842));
    assert_eq!(*status.get_surface_temperature(), Temperature::new(843));
    assert_eq!(*status.get_ambient_temperature(), Temperature::new(856));
}

fn node_advertisement() -> ManufacturerSpecificData {
    ManufacturerSpecificData {
        probe_serial_number: SerialNumber { number: 0x10001ded },
        product_type: ProductType::MeatNetRepeater,
        temperatures: [
            Temperature::new(860),
            Temperature::new(872),
            Temperature::new(878),
            Temperature::new(878),
            Temperature::new(881),
            Temperature::new(881),
            Temperature::new(871),
            Temperature::new(863),
        ],
        probe_id: 0,
        color: Color::Yellow,
        mode: Mode::Normal,
        virtual_ambient_sensor: 3,
        virtual_surface_sensor: 0,
        virtual_core_sensor: 0,
        battery_status: BatteryStatus::Okay,
        network_information: Some(NetworkInformation {
            hop_count: Hops::One,
        }),
    }
}

fn probe_advertisement() -> ManufacturerSpecificData {
    ManufacturerSpecificData {
        probe_serial_number: SerialNumber { number: 0x10001ded },
        product_type: ProductType::PredictiveProbe,
        temperatures: [
            Temperature::new(1223),
            Temperature::new(1212),
            Temperature::new(1207),
            Temperature::new(1187),
            Temperature::new(1137),
            Temperature::new(1090),
            Temperature::new(1051),
            Temperature::new(1006),
        ],
        probe_id: 0,
        color: Color::Yellow,
        mode: Mode::Normal,
        virtual_ambient_sensor: 3,
        virtual_surface_sensor: 0,
        virtual_core_sensor: 1,
        battery_status: BatteryStatus::Okay,
        network_information: None,
    }
}

#[test]
fn test_manufacturer_specific_data() {
    let node_data = vec![
        0x09, 0xC7, 0x02, 0xed, 0x1d, 0x00, 0x10, 0x5c, 0x03, 0x6d, 0xb8, 0x0d, 0xb7, 0x11, 0x37,
        0xe2, 0xc6, 0xd9, 0xf8, 0x1a, 0x00, 0xc0, 0x00, 0x00,
    ];

    assert_eq!(
        node_advertisement(),
        ManufacturerSpecificData::from_bytes(node_data.as_slice())
            .unwrap()
            .1,
    );

    let probe_data = vec![
        0x09, 0xC7, 0x01, 0xed, 0x1d, 0x00, 0x10, 0xc7, 0x84, 0x97, 0xdc, 0x92, 0x51, 0x12, 0x47,
        0x84, 0xc8, 0x06, 0x71, 0x1f, 0x00, 0xc2, 0x00, 0x00,
    ];

    assert_eq!(
        probe_advertisement(),
        ManufacturerSpecificData::from_bytes(probe_data.as_slice())
            .unwrap()
            .1,
    );
}

#[test]
fn lib_test_manufacturer_specific_data() {
    let node_data = vec![
        0xc7, 0x09, 0x02, 0xed, 0x1d, 0x00, 0x10, 0x5c, 0x03, 0x6d, 0xb8, 0x0d, 0xb7, 0x11, 0x37,
        0xe2, 0xc6, 0xd9, 0xf8, 0x1a, 0x00, 0xc0, 0x00, 0x00,
    ];

    assert_eq!(
        node_advertisement(),
        ManufacturerSpecificData::from_bytes_with_magic(
            node_data.as_slice(),
            ADVERTISEMENT_MAGIC_SWAPPED
        )
        .unwrap()
        .1,
    );

    let probe_data = vec![
        0xc7, 0x09, 0x01, 0xed, 0x1d, 0x00, 0x10, 0xc7, 0x84, 0x97, 0xdc, 0x92, 0x51, 0x12, 0x47,
        0x84, 0xc8, 0x06, 0x71, 0x1f, 0x00, 0xc2, 0x00, 0x00,
    ];

    assert_eq!(
        probe_advertisement(),
        ManufacturerSpecificData::from_bytes_with_magic(
            probe_data.as_slice(),
            ADVERTISEMENT_MAGIC_SWAPPED
        )
        .unwrap()
        .1,
    );
}

#[test]
fn repeater_advertisement_names_serial_and_hop_count() {
    let node_data = vec![
        0x09, 0xC7, 0x02, 0xed, 0x1d, 0x00, 0x10, 0x5c, 0x03, 0x6d, 0xb8, 0x0d, 0xb7, 0x11, 0x37,
        0xe2, 0xc6, 0xd9, 0xf8, 0x1a, 0x00, 0xc0, 0x00, 0x00,
    ];
    let data = ManufacturerSpecificData::try_from(&node_data).unwrap();
    assert_eq!(data.product_type, ProductType::MeatNetRepeater);
    assert_eq!(data.probe_serial_number.number, 0x10001ded);
    assert_eq!(
        data.network_information,
        Some(NetworkInformation {
            hop_count: Hops::One
        })
    );
    assert!(data.is_well_formed());
    assert_eq!(*data.get_core_temperature(), Temperature::new(860));
    assert_eq!(*data.get_surface_temperature(), Temperature::new(878));
    assert_eq!(*data.get_ambient_temperature(), Temperature::new(863));
}

#[test]
fn advertisement_errors_come_in_the_order_of_the_bytes() {
    let good = vec![
        0x09, 0xC7, 0x02, 0xed, 0x1d, 0x00, 0x10, 0x5c, 0x03, 0x6d, 0xb8, 0x0d, 0xb7, 0x11, 0x37,
        0xe2, 0xc6, 0xd9, 0xf8, 0x1a, 0x00, 0xc0, 0x00, 0x00,
    ];
    assert_eq!(
        ManufacturerSpecificData::from_bytes(&good[..1]),
        Err(DecodeError::Truncated)
    );
    // The swapped magic is not the current one.
    let mut swapped = good.clone();
    swapped[0] = 0xc7;
    swapped[1] = 0x09;
    assert_eq!(
        ManufacturerSpecificData::from_bytes(&swapped),
        Err(DecodeError::MagicMismatch)
    );
    assert_eq!(
        ManufacturerSpecificData::from_bytes_with_magic(&good, ADVERTISEMENT_MAGIC_SWAPPED),
        Err(DecodeError::MagicMismatch)
    );
    assert!(ManufacturerSpecificData::from_bytes_with_magic(&good, ADVERTISEMENT_MAGIC).is_ok());
    assert_eq!(
        ManufacturerSpecificData::from_bytes(&good[..2]),
        Err(DecodeError::Truncated)
    );
    let mut unknown_product = good.clone();
    unknown_product[2] = 3;
    assert_eq!(
        ManufacturerSpecificData::from_bytes(&unknown_product[..3]),
        Err(DecodeError::UnknownDiscriminator)
    );
    assert_eq!(
        ManufacturerSpecificData::from_bytes(&good[..22]),
        Err(DecodeError::Truncated)
    );
    let mut unknown_hops = good.clone();
    unknown_hops[22] = 4;
    assert_eq!(
        ManufacturerSpecificData::from_bytes(&unknown_hops[..23]),
        Err(DecodeError::UnknownDiscriminator)
    );
    assert_eq!(
        ManufacturerSpecificData::from_bytes(&good[..23]),
        Err(DecodeError::Truncated)
    );
    // For a probe the byte of the hop count is padding.
    let mut probe = good.clone();
    probe[2] = 1;
    probe[22] = 0xff;
    assert_eq!(
        ManufacturerSpecificData::from_bytes(&probe)
            .unwrap()
            .1
            .network_information,
        None
    );
}

#[test]
fn a_buffer_for_one_advertisement_may_hold_nothing_else() {
    let mut data = vec![
        0x09, 0xC7, 0x02, 0xed, 0x1d, 0x00, 0x10, 0x5c, 0x03, 0x6d, 0xb8, 0x0d, 0xb7, 0x11, 0x37,
        0xe2, 0xc6, 0xd9, 0xf8, 0x1a, 0x00, 0xc0, 0x00, 0x00,
    ];
    assert_eq!(
        ManufacturerSpecificData::try_from(&data),
        Ok(node_advertisement())
    );
    data.push(0);
    assert_eq!(
        ManufacturerSpecificData::try_from(&data),
        Err(DecodeError::TrailingBytes)
    );
    let (rest, _) = ManufacturerSpecificData::from_bytes(&data).unwrap();
    assert_eq!(rest, &[0]);
}

#[test]
fn product_types_and_hop_counts_have_their_bytes() {
    assert_eq!(ProductType::from_u8(0), Ok(ProductType::Unknown));
    assert_eq!(ProductType::from_u8(1), Ok(ProductType::PredictiveProbe));
    assert_eq!(ProductType::from_u8(2), Ok(ProductType::MeatNetRepeater));
    assert_eq!(
        ProductType::from_u8(3),
        Err(DecodeError::UnknownDiscriminator)
    );
    assert_eq!(ProductType::MeatNetRepeater.to_u8(), 2);
    assert_eq!(Hops::from_u8(3), Ok(Hops::Four));
    assert_eq!(Hops::from_u8(4), Err(DecodeError::UnknownDiscriminator));
    assert_eq!(Hops::Three.to_u8(), 2);
    assert_eq!(Mode::from_bits(3), Mode::Errored);
    assert_eq!(Mode::from_bits(1), Mode::InstantRead);
    assert_eq!(Color::from_bits(7), Color::Reserved7);
    assert_eq!(BatteryStatus::from_bits(1), BatteryStatus::LowBattery);
}
