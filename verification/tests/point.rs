use las::binary64::lt;
use las::point::Format;
use las::{Bounds, Color, Coordinate, Error, Point, ScanDirection, Vector, Waveform};

fn sample() -> Point {
    Point {
        x: Coordinate { value: 1.5f64.to_bits(), record: 1500 },
        y: Coordinate { value: (-2.0f64).to_bits(), record: -2000 },
        z: Coordinate { value: 0f64.to_bits(), record: -1 },
        intensity: 0x0102,
        return_number: 2,
        number_of_returns: 3,
        scan_direction: ScanDirection::LeftToRight,
        is_edge_of_flight_line: true,
        classification: 5,
        is_synthetic: true,
        is_key_point: false,
        is_withheld: true,
        is_overlap: false,
        scanner_channel: 0,
        scan_angle: -3,
        user_data: 0x42,
        point_source_id: 0x0A0B,
        ..Default::default()
    }
}

#[test]
fn record_of_a_point_without_attributes() {
    let expected = vec![
        0xDC, 0x05, 0x00, 0x00, // x = 1500
        0x30, 0xF8, 0xFF, 0xFF, // y = -2000
        0xFF, 0xFF, 0xFF, 0xFF, // z = -1
        0x02, 0x01, // intensity
        2 | 3 << 3 | 1 << 6 | 1 << 7,
        5 | 1 << 5 | 1 << 7,
        0xFD, // scan angle -3
        0x42,
        0x0B, 0x0A,
    ];
    assert_eq!(expected, sample().encode(false).unwrap());
}

#[test]
fn record_of_an_extended_point() {
    let mut point = sample();
    point.return_number = 9;
    point.number_of_returns = 15;
    point.is_overlap = true;
    point.scanner_channel = 2;
    point.classification = 200;
    point.scan_angle = -300;
    point.gps_time = Some(0x0102030405060708);
    let expected = vec![
        0xDC, 0x05, 0x00, 0x00,
        0x30, 0xF8, 0xFF, 0xFF,
        0xFF, 0xFF, 0xFF, 0xFF,
        0x02, 0x01,
        9 | 15 << 4,
        1 | 1 << 2 | 1 << 3 | 2 << 4 | 1 << 6 | 1 << 7,
        200,
        0x42,
        0xD4, 0xFE, // scan angle -300
        0x0B, 0x0A,
        8, 7, 6, 5, 4, 3, 2, 1,
    ];
    assert_eq!(expected, point.encode(true).unwrap());
}

#[test]
fn record_with_every_attribute() {
    let point = Point {
        gps_time: Some(1),
        color: Some(Color::new(0x0102, 0x0304, 0x0506)),
        nir: Some(0x0708),
        waveform: Some(Waveform {
            wave_packet_descriptor_index: 9,
            byte_offset_to_waveform_data: 0x1112131415161718,
            waveform_packet_size_in_bytes: 0x21222324,
            return_point_waveform_location: 1.0f32.to_bits(),
            x_t: 0x31323334,
            y_t: 0x41424344,
            z_t: 0x51525354,
        }),
        extra_bytes: vec![0xEE, 0xEF],
        ..Default::default()
    };
    let record = point.encode(true).unwrap();
    assert_eq!(67 + 2, record.len());
    assert!(point.matches(Format { extra_bytes: 2, ..Format::new(10).unwrap() }));
    assert_eq!(&[1, 0, 0, 0, 0, 0, 0, 0], &record[22..30]);
    assert_eq!(&[2, 1, 4, 3, 6, 5], &record[30..36]);
    assert_eq!(&[8, 7], &record[36..38]);
    assert_eq!(9, record[38]);
    assert_eq!(&[0x18, 0x17, 0x16, 0x15, 0x14, 0x13, 0x12, 0x11], &record[39..47]);
    assert_eq!(&[0x24, 0x23, 0x22, 0x21], &record[47..51]);
    assert_eq!(&[0x00, 0x00, 0x80, 0x3F], &record[51..55]);
    assert_eq!(&[0x34, 0x33, 0x32, 0x31], &record[55..59]);
    assert_eq!(&[0x44, 0x43, 0x42, 0x41], &record[59..63]);
    assert_eq!(&[0x54, 0x53, 0x52, 0x51], &record[63..67]);
    assert_eq!(&[0xEE, 0xEF], &record[67..]);
}

#[test]
fn fields_that_do_not_fit() {
    let mut point = Point::default();
    point.return_number = 8;
    assert!(matches!(point.encode(false), Err(Error::ReturnNumber(8))));
    assert!(point.encode(true).is_ok());
    point.return_number = 16;
    assert!(matches!(point.encode(true), Err(Error::ReturnNumber(16))));

    let mut point = Point::default();
    point.number_of_returns = 8;
    assert!(matches!(point.encode(false), Err(Error::NumberOfReturns(8))));
    assert!(point.encode(true).is_ok());
    point.number_of_returns = 16;
    assert!(matches!(point.encode(true), Err(Error::NumberOfReturns(16))));

    let mut point = Point::default();
    point.classification = 32;
    assert!(matches!(point.encode(false), Err(Error::Classification(32))));
    assert!(point.encode(true).is_ok());
    point.classification = 31;
    assert!(point.encode(false).is_ok());

    let mut point = Point::default();
    point.is_overlap = true;
    assert!(matches!(point.encode(false), Err(Error::Overlap)));
    assert!(point.encode(true).is_ok());

    let mut point = Point::default();
    point.scanner_channel = 1;
    assert!(matches!(point.encode(false), Err(Error::ScannerChannel(1))));
    assert!(point.encode(true).is_ok());
    point.scanner_channel = 4;
    assert!(matches!(point.encode(true), Err(Error::ScannerChannel(4))));

    let mut point = Point::default();
    point.scan_angle = 128;
    assert!(matches!(point.encode(false), Err(Error::ScanAngle(128))));
    assert!(point.encode(true).is_ok());
    point.scan_angle = -129;
    assert!(matches!(point.encode(false), Err(Error::ScanAngle(-129))));
    point.scan_angle = -128;
    assert_eq!(0x80, point.encode(false).unwrap()[16]);
    point.scan_angle = 127;
    assert_eq!(0x7F, point.encode(false).unwrap()[16]);
}

#[test]
fn first_field_that_does_not_fit_is_named() {
    let mut point = Point::default();
    point.scan_angle = 500;
    point.classification = 40;
    point.number_of_returns = 9;
    assert!(matches!(point.check_fields(false), Err(Error::NumberOfReturns(9))));
    point.number_of_returns = 1;
    assert!(matches!(point.check_fields(false), Err(Error::Classification(40))));
    point.classification = 1;
    assert!(matches!(point.check_fields(false), Err(Error::ScanAngle(500))));
    assert!(point.check_fields(true).is_ok());
}

#[test]
fn matching_is_exact() {
    let point = Point {
        gps_time: Some(0),
        color: Some(Color::default()),
        ..Default::default()
    };
    for n in 0..=10u8 {
        assert_eq!(n == 3 || n == 7, point.matches(Format::new(n).unwrap()));
    }
    for n in 0..=10u8 {
        assert_eq!(n == 0, Point::default().matches(Format::new(n).unwrap()));
    }
    let extra = Format { extra_bytes: 1, ..Format::new(3).unwrap() };
    assert!(!point.matches(extra));
}

#[test]
fn order_of_binary64_patterns() {
    let values = [
        f64::NEG_INFINITY,
        -1e300,
        -2.5,
        -f64::MIN_POSITIVE,
        -0.0,
        0.0,
        f64::MIN_POSITIVE,
        1.0,
        1.0000000000000002,
        1e300,
        f64::INFINITY,
        f64::NAN,
        -f64::NAN,
    ];
    for a in values {
        for b in values {
            assert_eq!(a < b, lt(a.to_bits(), b.to_bits()), "{} < {}", a, b);
        }
    }
    assert!(!lt(0x7FF0_0000_0000_0001, 0x7FF0_0000_0000_0000));
    assert!(!lt(0, 0x7FF8_0000_0000_0000));
    assert!(lt(0xFFF0_0000_0000_0000, 0x7FF0_0000_0000_0000));
}

#[test]
fn bounds_grow() {
    let mut bounds = Bounds::default();
    assert_eq!(f64::INFINITY.to_bits(), bounds.min.x);
    assert_eq!(f64::NEG_INFINITY.to_bits(), bounds.max.x);
    let v = |x: f64, y: f64, z: f64| Vector { x: x.to_bits(), y: y.to_bits(), z: z.to_bits() };
    bounds.grow(v(1.0, 2.0, 3.0));
    assert_eq!(Bounds { min: v(1.0, 2.0, 3.0), max: v(1.0, 2.0, 3.0) }, bounds);
    bounds.grow(v(-1.0, 5.0, f64::NAN));
    assert_eq!(Bounds { min: v(-1.0, 2.0, 3.0), max: v(1.0, 5.0, 3.0) }, bounds);
    bounds.grow(v(0.0, 0.0, 0.0));
    assert_eq!(Bounds { min: v(-1.0, 0.0, 0.0), max: v(1.0, 5.0, 3.0) }, bounds);
}
