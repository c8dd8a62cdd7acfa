use byteorder::{LittleEndian, ReadBytesExt};
use las::point::Format;
use las::{Builder, Color, Cursor, Error, Point, Version, Vlr, Writer};

fn writer(format: Format, version: Version) -> Writer {
    let mut builder = Builder::default();
    builder.point_format = format;
    builder.version = version;
    Writer::new(Cursor::new(Vec::new()), builder.into_header().unwrap()).unwrap()
}

#[test]
fn las_1_0_point_data_start_signature() {
    let mut builder = Builder::default();
    builder.version = (1, 0).into();
    builder.vlrs.push(Default::default());
    let mut writer =
        Writer::new(Cursor::new(Vec::new()), builder.into_header().unwrap()).unwrap();
    writer.write(Default::default()).unwrap();
    let cursor = writer.into_inner().unwrap();
    let mut cursor = std::io::Cursor::new(cursor.into_inner());
    cursor.set_position(281);
    assert_eq!(0xCCDD, cursor.read_u16::<LittleEndian>().unwrap());
}

#[test]
fn already_closed() {
    let mut writer = Writer::default();
    writer.close().unwrap();
    assert!(writer.close().is_err());
    assert!(writer.write(Default::default()).is_err());
}

#[test]
fn missing_extra_bytes() {
    let format = Format {
        extra_bytes: 1,
        ..Default::default()
    };
    let mut writer = writer(format, Version::new(1, 4));
    assert!(writer.write(Default::default()).is_err());
}

#[test]
fn missing_gps_time() {
    let format = Format::new(1).unwrap();
    let mut writer = writer(format, Version::new(1, 2));
    assert!(writer.write(Default::default()).is_err());
}

#[test]
fn missing_color() {
    let format = Format::new(2).unwrap();
    let mut writer = writer(format, Version::new(1, 2));
    assert!(writer.write(Default::default()).is_err());
}

#[test]
fn missing_nir() {
    let format = Format::new(8).unwrap();
    let mut writer = writer(format, Version::new(1, 4));
    let point = Point {
        gps_time: Some(0f64.to_bits()),
        color: Some(Default::default()),
        ..Default::default()
    };
    assert!(writer.write(point).is_err());
}

#[test]
fn missing_waveform() {
    let format = Format::new(4).unwrap();
    let mut writer = writer(format, Version::new(1, 4));
    assert!(writer.write(Default::default()).is_err());
}

#[test]
fn closed_writer_says_closed() {
    let mut writer = Writer::default();
    writer.close().unwrap();
    assert!(writer.is_closed());
    assert!(matches!(writer.close(), Err(Error::Closed)));
    assert!(matches!(writer.write(Point::default()), Err(Error::Closed)));
    assert!(matches!(writer.close(), Err(Error::Closed)));
}

#[test]
fn capture_time_is_required_then_accepted() {
    let mut writer = writer(Format::new(1).unwrap(), Version::new(1, 2));
    let mut point = Point::default();
    assert!(writer.write(point.clone()).is_err());
    point.gps_time = Some(42f64.to_bits());
    writer.write(point).unwrap();
    assert_eq!(1, writer.header().number_of_points());
}

#[test]
fn surplus_near_infrared_is_rejected() {
    let mut writer = writer(Format::new(2).unwrap(), Version::new(1, 2));
    let point = Point {
        color: Some(Color::new(1, 2, 3)),
        nir: Some(4),
        ..Default::default()
    };
    assert!(matches!(
        writer.write(point.clone()),
        Err(Error::PointAttributes(_, _))
    ));
    let point = Point { nir: None, ..point };
    writer.write(point).unwrap();
}

#[test]
fn surplus_color_is_rejected() {
    let mut writer = writer(Format::new(1).unwrap(), Version::new(1, 2));
    let point = Point {
        gps_time: Some(42f64.to_bits()),
        color: Some(Color::new(1, 2, 3)),
        ..Default::default()
    };
    assert!(writer.write(point).is_err());
}

#[test]
fn rejected_point_comes_back_and_changes_nothing() {
    let format = Format::new(3).unwrap();
    let mut writer = writer(format, Version::new(1, 2));
    let before = writer.header().number_of_points();
    let bounds = writer.header().bounds();
    let mut point = Point::default();
    point.x.value = 7f64.to_bits();
    point.intensity = 9;
    match writer.write(point.clone()) {
        Err(Error::PointAttributes(f, p)) => {
            assert_eq!(format, f);
            assert_eq!(point, p);
        }
        other => panic!("{:?}", other),
    }
    assert_eq!(before, writer.header().number_of_points());
    assert_eq!(bounds, writer.header().bounds());
    let stream = writer.into_inner().unwrap().into_inner();
    assert_eq!(227, stream.len());
}

#[test]
fn extra_bytes_must_match_in_length() {
    let format = Format {
        extra_bytes: 2,
        ..Default::default()
    };
    let mut writer = writer(format, Version::new(1, 4));
    let mut point = Point::default();
    point.extra_bytes = vec![1];
    assert!(writer.write(point.clone()).is_err());
    point.extra_bytes = vec![1, 2, 3];
    assert!(writer.write(point.clone()).is_err());
    point.extra_bytes = vec![1, 2];
    writer.write(point).unwrap();
    let stream = writer.into_inner().unwrap().into_inner();
    assert_eq!(375 + 22, stream.len());
    assert_eq!(&[1, 2], &stream[395..]);
}

fn at(x: f64, y: f64, z: f64) -> Point {
    let mut point = Point::default();
    point.x.value = x.to_bits();
    point.y.value = y.to_bits();
    point.z.value = z.to_bits();
    point.x.record = (x * 1000.0) as i32;
    point.y.record = (y * 1000.0) as i32;
    point.z.record = (z * 1000.0) as i32;
    point
}

fn f64_at(stream: &[u8], offset: usize) -> f64 {
    let mut bytes = [0u8; 8];
    bytes.copy_from_slice(&stream[offset..offset + 8]);
    f64::from_le_bytes(bytes)
}

fn u32_at(stream: &[u8], offset: usize) -> u32 {
    let mut bytes = [0u8; 4];
    bytes.copy_from_slice(&stream[offset..offset + 4]);
    u32::from_le_bytes(bytes)
}

#[test]
fn header_counts_points_and_encloses_them() {
    let mut writer = Writer::default();
    writer.write(at(1.0, -2.0, 3.5)).unwrap();
    writer.write(at(-4.25, 5.0, 0.0)).unwrap();
    writer.write(at(0.5, 0.25, -6.0)).unwrap();
    assert_eq!(3, writer.header().number_of_points());
    let bounds = writer.header().bounds();
    assert_eq!((-4.25f64).to_bits(), bounds.min.x);
    assert_eq!(1.0f64.to_bits(), bounds.max.x);
    assert_eq!((-2.0f64).to_bits(), bounds.min.y);
    assert_eq!(5.0f64.to_bits(), bounds.max.y);
    assert_eq!((-6.0f64).to_bits(), bounds.min.z);
    assert_eq!(3.5f64.to_bits(), bounds.max.z);
    let stream = writer.into_inner().unwrap().into_inner();
    assert_eq!(227 + 3 * 20, stream.len());
    assert_eq!(3, u32_at(&stream, 107));
    assert_eq!(1.0, f64_at(&stream, 179));
    assert_eq!(-4.25, f64_at(&stream, 187));
    assert_eq!(5.0, f64_at(&stream, 195));
    assert_eq!(-2.0, f64_at(&stream, 203));
    assert_eq!(3.5, f64_at(&stream, 211));
    assert_eq!(-6.0, f64_at(&stream, 219));
}

#[test]
fn placeholder_header_has_no_points() {
    let writer = Writer::default();
    assert_eq!(0, writer.header().number_of_points());
    assert_eq!(f64::INFINITY.to_bits(), writer.header().bounds().min.x);
    assert_eq!(f64::NEG_INFINITY.to_bits(), writer.header().bounds().max.z);
    assert!(!writer.is_closed());
}

#[test]
fn new_clears_the_header() {
    let mut first = Writer::default();
    first.write(at(1.0, 2.0, 3.0)).unwrap();
    assert_eq!(1, first.header().number_of_points());
    let mut builder = Builder::default();
    builder.version = Version::new(1, 1);
    let second = Writer::new(Cursor::new(Vec::new()), builder.into_header().unwrap()).unwrap();
    assert_eq!(0, second.header().number_of_points());
    assert_eq!(f64::INFINITY.to_bits(), second.header().bounds().min.y);
}

#[test]
fn default_header_bytes() {
    let stream = Writer::default().into_inner().unwrap().into_inner();
    assert_eq!(227, stream.len());
    assert_eq!(b"LASF", &stream[0..4]);
    assert_eq!(&[0u8; 20][..], &stream[4..24]);
    assert_eq!(&[1, 2], &stream[24..26]);
    assert_eq!(&[227, 0], &stream[94..96]);
    assert_eq!(227, u32_at(&stream, 96));
    assert_eq!(0, u32_at(&stream, 100));
    assert_eq!(0, stream[104]);
    assert_eq!(&[20, 0], &stream[105..107]);
    assert_eq!(0, u32_at(&stream, 107));
    assert_eq!(0.001, f64_at(&stream, 131));
    assert_eq!(0.001, f64_at(&stream, 139));
    assert_eq!(0.001, f64_at(&stream, 147));
    assert_eq!(0.0, f64_at(&stream, 155));
    assert_eq!(f64::NEG_INFINITY, f64_at(&stream, 179));
    assert_eq!(f64::INFINITY, f64_at(&stream, 187));
}

#[test]
fn stream_holds_the_parts_in_order() {
    let mut builder = Builder::default();
    builder.version = Version::new(1, 4);
    builder.point_format = Format::new(6).unwrap();
    let mut first = Vlr::default();
    first.user_id[0] = b'a';
    first.record_id = 0x0102;
    first.data = vec![10, 11, 12];
    let mut second = Vlr::default();
    second.user_id[0] = b'b';
    second.description[31] = b'z';
    builder.vlrs.push(first);
    builder.vlrs.push(second);
    builder.vlr_padding = vec![0xAA, 0xBB];
    let mut trailing = Vlr::default();
    trailing.user_id[0] = b'c';
    trailing.data = vec![1, 2, 3, 4, 5];
    builder.evlrs.push(trailing);
    let mut writer =
        Writer::new(Cursor::new(Vec::new()), builder.into_header().unwrap()).unwrap();
    let mut one = Point::default();
    one.gps_time = Some(1f64.to_bits());
    one.intensity = 0x1111;
    let mut two = Point::default();
    two.gps_time = Some(2f64.to_bits());
    two.intensity = 0x2222;
    writer.write(one).unwrap();
    writer.write(two).unwrap();
    let stream = writer.into_inner().unwrap().into_inner();

    let vlrs = 375;
    let padding = vlrs + 54 + 3 + 54;
    let points = padding + 2;
    let evlrs = points + 2 * 30;
    assert_eq!(evlrs + 60 + 5, stream.len());
    assert_eq!(b"LASF", &stream[0..4]);
    assert_eq!(&[1, 4], &stream[24..26]);
    assert_eq!(&[0x77, 0x01], &stream[94..96]);
    assert_eq!(points as u32, u32_at(&stream, 96));
    assert_eq!(2, u32_at(&stream, 100));
    assert_eq!(6, stream[104]);
    assert_eq!(&[30, 0], &stream[105..107]);
    assert_eq!(0, u32_at(&stream, 107));
    assert_eq!(evlrs as u32, u32_at(&stream, 235));
    assert_eq!(0, u32_at(&stream, 239));
    assert_eq!(1, u32_at(&stream, 243));
    assert_eq!(2, u32_at(&stream, 247));
    assert_eq!(0, u32_at(&stream, 251));

    assert_eq!(&[0, 0, b'a'], &stream[vlrs..vlrs + 3]);
    assert_eq!(&[0x02, 0x01, 3, 0], &stream[vlrs + 18..vlrs + 22]);
    assert_eq!(&[10, 11, 12], &stream[vlrs + 54..vlrs + 57]);
    assert_eq!(&[0, 0, b'b'], &stream[vlrs + 57..vlrs + 60]);
    assert_eq!(b'z', stream[vlrs + 57 + 53]);
    assert_eq!(&[0xAA, 0xBB], &stream[padding..points]);
    assert_eq!(&[0x11, 0x11], &stream[points + 12..points + 14]);
    assert_eq!(1.0, f64_at(&stream, points + 22));
    assert_eq!(&[0x22, 0x22], &stream[points + 42..points + 44]);
    assert_eq!(2.0, f64_at(&stream, points + 52));
    assert_eq!(&[0, 0, b'c'], &stream[evlrs..evlrs + 3]);
    assert_eq!(&[5, 0, 0, 0, 0, 0, 0, 0], &stream[evlrs + 20..evlrs + 28]);
    assert_eq!(&[1, 2, 3, 4, 5], &stream[evlrs + 60..]);
}

#[test]
fn padding_of_1_0_ends_in_signature_once() {
    let mut builder = Builder::default();
    builder.version = Version::new(1, 0);
    builder.vlr_padding = vec![7, 0xDD, 0xCC];
    let header = builder.into_header().unwrap();
    assert_eq!(&vec![7, 0xDD, 0xCC], header.vlr_padding());
    let mut builder = Builder::default();
    builder.version = Version::new(1, 0);
    builder.vlr_padding = vec![7];
    let header = builder.into_header().unwrap();
    assert_eq!(&vec![7, 0xDD, 0xCC], header.vlr_padding());
    let mut builder = Builder::default();
    builder.version = Version::new(1, 1);
    let header = builder.into_header().unwrap();
    assert!(header.vlr_padding().is_empty());
}

#[test]
fn writer_starts_where_the_cursor_stands() {
    let mut cursor = Cursor::new(vec![9, 9, 9]);
    cursor.set_position(5);
    let writer = Writer::new(cursor, Builder::default().into_header().unwrap()).unwrap();
    let stream = writer.into_inner().unwrap();
    assert_eq!(0, stream.position());
    let stream = stream.into_inner();
    assert_eq!(232, stream.len());
    assert_eq!(b"LASF", &stream[0..4]);
    assert_eq!(0, stream[8]);
    assert_eq!(&[0, 0, 0, 0xF0, 0x7F], &stream[227..]);
}

#[test]
fn into_inner_of_closed_writer_rewinds() {
    let mut writer = Writer::default();
    writer.write(Point::default()).unwrap();
    writer.close().unwrap();
    let cursor = writer.into_inner().unwrap();
    assert_eq!(0, cursor.position());
    assert_eq!(247, cursor.get_ref().len());
    assert_eq!(1, u32_at(cursor.get_ref(), 107));
}

#[test]
fn many_points_are_taken_and_counted() {
    let mut writer = Writer::default();
    for i in 0..70000u32 {
        let mut point = Point::default();
        point.intensity = (i % 65536) as u16;
        writer.write(point).unwrap();
    }
    assert_eq!(70000, writer.header().number_of_points());
    writer.close().unwrap();
    let stream = writer.into_inner().unwrap().into_inner();
    assert_eq!(227 + 70000 * 20, stream.len());
    assert_eq!(70000, u32_at(&stream, 107));
    assert_eq!(&[0x6F, 0x11], &stream[227 + 69999 * 20 + 12..227 + 69999 * 20 + 14]);
}
