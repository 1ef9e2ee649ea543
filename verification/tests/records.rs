use gt911::point::decode_point;
use gt911::point::encode_point;
use gt911::point::Point;
use gt911::status::get_num_touch_points;
use gt911::status::is_product_id;
use gt911::touch_points::decode_points;
use gt911::registers::Transaction;
use gt911::Error;

#[test]
fn decode_point_reads_little_endian_fields() {
    let record = [0x02, 0x34, 0x12, 0x78, 0x56, 0xBC, 0x9A, 0x00];
    let point = decode_point(&record);
    assert_eq!(point, Point { track_id: 2, x: 0x1234, y: 0x5678, area: 0x9ABC });
}

#[test]
fn decode_point_low_byte_comes_first() {
    let point = decode_point(&[0, 0x01, 0x00, 0x00, 0x01, 0xFF, 0x00, 0]);
    assert_eq!(point.x, 1);
    assert_eq!(point.y, 256);
    assert_eq!(point.area, 255);
}

#[test]
fn decode_point_ignores_reserved_byte() {
    let plain = decode_point(&[4, 10, 0, 20, 0, 30, 0, 0x00]);
    let marked = decode_point(&[4, 10, 0, 20, 0, 30, 0, 0xA5]);
    assert_eq!(plain, marked);
    assert_eq!(plain, Point { track_id: 4, x: 10, y: 20, area: 30 });
}

#[test]
fn decode_point_reads_only_the_first_record() {
    let buf = [1, 2, 0, 3, 0, 4, 0, 0, 9, 9, 9, 9, 9, 9, 9, 9];
    assert_eq!(decode_point(&buf), Point { track_id: 1, x: 2, y: 3, area: 4 });
}

#[test]
fn decode_point_extreme_values() {
    assert_eq!(
        decode_point(&[0xFF; 8]),
        Point { track_id: 0xFF, x: 0xFFFF, y: 0xFFFF, area: 0xFFFF }
    );
    assert_eq!(decode_point(&[0x00; 8]), Point { track_id: 0, x: 0, y: 0, area: 0 });
}

#[test]
fn encode_point_lays_out_the_record() {
    let record = encode_point(&Point { track_id: 3, x: 0x0102, y: 0x0304, area: 0x0506 });
    assert_eq!(record, [3, 0x02, 0x01, 0x04, 0x03, 0x06, 0x05, 0]);
}

#[test]
fn decode_inverts_encode_on_samples() {
    let samples = [
        Point { track_id: 0, x: 0, y: 0, area: 0 },
        Point { track_id: 1, x: 479, y: 271, area: 36 },
        Point { track_id: 4, x: 0x00FF, y: 0xFF00, area: 0x8001 },
        Point { track_id: 255, x: 65535, y: 65535, area: 65535 },
    ];
    for point in samples {
        assert_eq!(decode_point(&encode_point(&point)), point);
    }
}

#[test]
fn encode_inverts_decode_but_for_the_reserved_byte() {
    let record = [7, 0x11, 0x22, 0x33, 0x44, 0x55, 0x66, 0x77];
    let again = encode_point(&decode_point(&record));
    assert_eq!(again, [7, 0x11, 0x22, 0x33, 0x44, 0x55, 0x66, 0x00]);
}

#[test]
fn status_without_ready_flag_is_not_ready() {
    for status in [0x00u8, 0x03, 0x05, 0x0F, 0x7F] {
        assert!(matches!(get_num_touch_points::<u8>(status), Err(Error::NotReady)));
    }
}

#[test]
fn status_with_ready_flag_gives_the_count() {
    assert!(matches!(get_num_touch_points::<u8>(0x80), Ok(0)));
    assert!(matches!(get_num_touch_points::<u8>(0x81), Ok(1)));
    assert!(matches!(get_num_touch_points::<u8>(0x83), Ok(3)));
    assert!(matches!(get_num_touch_points::<u8>(0x85), Ok(5)));
    assert!(matches!(get_num_touch_points::<u8>(0x8F), Ok(15)));
}

#[test]
fn status_count_is_the_low_nibble_only() {
    assert!(matches!(get_num_touch_points::<u8>(0xF2), Ok(2)));
    assert!(matches!(get_num_touch_points::<u8>(0x90), Ok(0)));
    assert!(matches!(get_num_touch_points::<u8>(0xFF), Ok(15)));
}

#[test]
fn product_id_is_911_and_nul() {
    assert!(is_product_id(b"911\0"));
    assert!(is_product_id(&[0x39, 0x31, 0x31, 0x00]));
    assert!(is_product_id(b"911\0 and more"));
}

#[test]
fn product_id_rejects_everything_else() {
    assert!(!is_product_id(b"9110"));
    assert!(!is_product_id(b"912\0"));
    assert!(!is_product_id(b"811\0"));
    assert!(!is_product_id(b"901\0"));
    assert!(!is_product_id(b"\0\0\0\0"));
    assert!(!is_product_id(b"\0911"));
    assert!(!is_product_id(&[0xFF, 0, 0, 0]));
    assert!(!is_product_id(&[0xFF, 0xFF, 0xFF, 0xFF]));
}

#[test]
fn decode_points_of_no_record_is_empty() {
    let points = decode_points(&[0xAA; 40], 0);
    assert!(points.is_empty());
    let points = decode_points(&[], 0);
    assert_eq!(points.len(), 0);
}

#[test]
fn decode_points_keeps_record_order() {
    let mut buf = [0u8; 40];
    buf[..8].copy_from_slice(&[0, 10, 0, 11, 0, 12, 0, 0]);
    buf[8..16].copy_from_slice(&[1, 20, 0, 21, 0, 22, 0, 0]);
    buf[16..24].copy_from_slice(&[2, 30, 0, 31, 0, 32, 0, 0]);
    buf[24..32].copy_from_slice(&[9, 9, 9, 9, 9, 9, 9, 9]);
    let points = decode_points(&buf, 3);
    assert_eq!(
        points.as_slice(),
        &[
            Point { track_id: 0, x: 10, y: 11, area: 12 },
            Point { track_id: 1, x: 20, y: 21, area: 22 },
            Point { track_id: 2, x: 30, y: 31, area: 32 },
        ]
    );
}

#[test]
fn decode_points_fills_to_capacity() {
    let mut buf = [0u8; 40];
    for n in 0..5u8 {
        let record = encode_point(&Point {
            track_id: n,
            x: 100 + n as u16,
            y: 200 + n as u16,
            area: 300 + n as u16,
        });
        buf[n as usize * 8..n as usize * 8 + 8].copy_from_slice(&record);
    }
    let points = decode_points(&buf, 5);
    assert_eq!(points.len(), 5);
    assert!(points.is_full());
    for n in 0..5usize {
        assert_eq!(
            points[n],
            Point { track_id: n as u8, x: 100 + n as u16, y: 200 + n as u16, area: 300 + n as u16 }
        );
    }
}

#[test]
fn write_sends_register_high_byte_first_then_value() {
    assert_eq!(
        gt911::registers::write(0x5D, 0x8040, 0),
        Transaction::Write { address: 0x5D, frame: [0x80, 0x40, 0x00] }
    );
    assert_eq!(
        gt911::registers::write(0x14, 0x814E, 0xA7),
        Transaction::Write { address: 0x14, frame: [0x81, 0x4E, 0xA7] }
    );
    assert_eq!(
        gt911::registers::write(0, 0x00FF, 1),
        Transaction::Write { address: 0, frame: [0x00, 0xFF, 0x01] }
    );
}

#[test]
fn read_sends_register_high_byte_first_and_names_the_length() {
    assert_eq!(
        gt911::registers::read(0x5D, 0x8140, 4),
        Transaction::WriteRead { address: 0x5D, register: [0x81, 0x40], len: 4 }
    );
    assert_eq!(
        gt911::registers::read(0x5D, 0x814F, 40),
        Transaction::WriteRead { address: 0x5D, register: [0x81, 0x4F], len: 40 }
    );
    assert_eq!(
        gt911::registers::read(0x14, 0xFF00, 0),
        Transaction::WriteRead { address: 0x14, register: [0xFF, 0x00], len: 0 }
    );
}

#[test]
fn register_map_matches_the_device() {
    assert_eq!(gt911::registers::GT911_I2C_ADDR_BA, 0x5D);
    assert_eq!(gt911::registers::GT911_COMMAND_REG, 0x8040);
    assert_eq!(gt911::registers::GT911_PRODUCT_ID_REG, 0x8140);
    assert_eq!(gt911::registers::GT911_TOUCHPOINT_STATUS_REG, 0x814E);
    assert_eq!(gt911::registers::GT911_TOUCHPOINT_1_REG, 0x814F);
    assert_eq!(gt911::registers::SCRATCH_LEN, 40);
    assert_eq!(gt911::point::TOUCHPOINT_ENTRY_LEN, 8);
    assert_eq!(gt911::touch_points::MAX_NUM_TOUCHPOINTS, 5);
}

#[test]
fn error_clone_keeps_kind_and_cause() {
    assert!(matches!(Error::<u8>::UnexpectedProductId.clone(), Error::UnexpectedProductId));
    assert!(matches!(Error::I2C(7u8).clone(), Error::I2C(7)));
    assert!(matches!(Error::<u8>::NotReady.clone(), Error::NotReady));
}
