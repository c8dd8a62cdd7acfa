use las::point::Format;
use las::{Builder, Encoder, Error, Point, Version, Vlr};

#[test]
fn encoder_gives_the_bytes_of_each_step() {
    let mut builder = Builder::default();
    builder.vlrs.push(Vlr::default());
    builder.vlr_padding = vec![1, 2, 3];
    let (mut encoder, preamble) = Encoder::new(builder.into_header().unwrap()).unwrap();
    assert_eq!(227 + 54 + 3, preamble.len());
    assert_eq!(&[1, 2, 3], &preamble[281..]);
    assert_eq!(&[0, 0, 0, 0], &preamble[107..111]);
    let record = encoder.write(Point::default()).unwrap();
    assert_eq!(vec![0u8; 20], record);
    assert_eq!(1, encoder.header().number_of_points());
    let (trailer, header) = encoder.finish().unwrap();
    assert!(trailer.is_empty());
    assert_eq!(227, header.len());
    assert_eq!(&[1, 0, 0, 0], &header[107..111]);
    assert_eq!(&preamble[..107], &header[..107]);
    assert!(!encoder.is_closed());
    encoder.close().unwrap();
    assert!(encoder.is_closed());
}

#[test]
fn closed_encoder_says_closed() {
    let (mut encoder, _) = Encoder::new(Builder::default().into_header().unwrap()).unwrap();
    encoder.close().unwrap();
    assert!(matches!(encoder.close(), Err(Error::Closed)));
    assert!(matches!(encoder.finish(), Err(Error::Closed)));
    assert!(matches!(encoder.write(Point::default()), Err(Error::Closed)));
    assert_eq!(0, encoder.header().number_of_points());
}

#[test]
fn finish_can_be_asked_again() {
    let (mut encoder, _) = Encoder::new(Builder::default().into_header().unwrap()).unwrap();
    let first = encoder.finish().unwrap();
    encoder.write(Point::default()).unwrap();
    let second = encoder.finish().unwrap();
    assert_eq!(&[0, 0, 0, 0], &first.1[107..111]);
    assert_eq!(&[1, 0, 0, 0], &second.1[107..111]);
}

#[test]
fn closed_comes_before_mismatch() {
    let mut builder = Builder::default();
    builder.point_format = Format::new(1).unwrap();
    let (mut encoder, _) = Encoder::new(builder.into_header().unwrap()).unwrap();
    assert!(matches!(
        encoder.write(Point::default()),
        Err(Error::PointAttributes(_, _))
    ));
    encoder.close().unwrap();
    assert!(matches!(encoder.write(Point::default()), Err(Error::Closed)));
}

#[test]
fn mismatch_comes_before_fields() {
    let mut builder = Builder::default();
    builder.point_format = Format::new(1).unwrap();
    let (mut encoder, _) = Encoder::new(builder.into_header().unwrap()).unwrap();
    let mut point = Point::default();
    point.return_number = 8;
    assert!(matches!(
        encoder.write(point.clone()),
        Err(Error::PointAttributes(_, _))
    ));
    point.gps_time = Some(0);
    assert!(matches!(encoder.write(point), Err(Error::ReturnNumber(8))));
    assert_eq!(0, encoder.header().number_of_points());
}

#[test]
fn version_that_is_not_written() {
    let mut builder = Builder::default();
    builder.version = Version::new(2, 0);
    let header = builder.into_header().unwrap();
    match Encoder::new(header) {
        Err(Error::Version(version)) => assert_eq!(Version::new(2, 0), version),
        other => panic!("{:?}", other),
    }
    let mut builder = Builder::default();
    builder.version = Version::new(1, 5);
    assert!(matches!(
        Encoder::new(builder.into_header().unwrap()),
        Err(Error::Version(_))
    ));
}

#[test]
fn layout_without_a_number() {
    let mut builder = Builder::default();
    builder.version = Version::new(1, 4);
    builder.point_format = Format {
        has_nir: true,
        ..Default::default()
    };
    match Encoder::new(builder.into_header().unwrap()) {
        Err(Error::Layout(format)) => assert!(format.has_nir),
        other => panic!("{:?}", other),
    }
}

#[test]
fn format_that_the_version_does_not_know() {
    for (minor, number) in [(0, 2), (1, 3), (2, 4), (2, 5), (3, 6), (3, 10)] {
        let mut builder = Builder::default();
        builder.version = Version::new(1, minor);
        builder.point_format = Format::new(number).unwrap();
        match Encoder::new(builder.into_header().unwrap()) {
            Err(Error::Format(version, format)) => {
                assert_eq!(Version::new(1, minor), version);
                assert_eq!(Some(number), format.to_u8());
            }
            other => panic!("{:?}", other),
        }
    }
    for (minor, number) in [(0, 1), (1, 1), (2, 3), (3, 5), (4, 10), (4, 0)] {
        let mut builder = Builder::default();
        builder.version = Version::new(1, minor);
        builder.point_format = Format::new(number).unwrap();
        assert!(Encoder::new(builder.into_header().unwrap()).is_ok());
    }
}

#[test]
fn record_that_is_too_long() {
    let mut builder = Builder::default();
    builder.version = Version::new(1, 4);
    builder.point_format = Format {
        extra_bytes: 65535 - 37,
        ..Format::new(8).unwrap()
    };
    assert!(matches!(
        Encoder::new(builder.clone().into_header().unwrap()),
        Err(Error::RecordLength(_))
    ));
    builder.point_format.extra_bytes = 65535 - 38;
    assert!(Encoder::new(builder.into_header().unwrap()).is_ok());
}

#[test]
fn record_before_the_points_that_is_too_long() {
    let mut builder = Builder::default();
    builder.vlrs.push(Vlr::default());
    let mut long = Vlr::default();
    long.data = vec![0; 65536];
    builder.vlrs.push(long);
    assert!(matches!(
        builder.clone().into_header(),
        Err(Error::VlrTooLong(1))
    ));
    builder.vlrs[1].data.pop();
    let (_, preamble) = Encoder::new(builder.into_header().unwrap()).unwrap();
    assert_eq!(227 + 54 + 54 + 65535, preamble.len());
    assert_eq!(&[0xFF, 0xFF], &preamble[227 + 54 + 20..227 + 54 + 22]);
}

#[test]
fn extended_records_need_a_place() {
    let mut builder = Builder::default();
    builder.evlrs.push(Vlr::default());
    match builder.clone().into_header() {
        Err(Error::Evlrs(version)) => assert_eq!(Version::new(1, 2), version),
        other => panic!("{:?}", other),
    }
    builder.version = Version::new(1, 4);
    let mut long = Vlr::default();
    long.data = vec![7; 70000];
    builder.evlrs.push(long);
    let (encoder, _) = Encoder::new(builder.into_header().unwrap()).unwrap();
    let (trailer, header) = encoder.finish().unwrap();
    assert_eq!(60 + 60 + 70000, trailer.len());
    assert_eq!(&[0x70, 0x11, 0x01, 0, 0, 0, 0, 0], &trailer[60 + 20..60 + 28]);
    assert_eq!(&[0x77, 0x01, 0, 0, 0, 0, 0, 0], &header[235..243]);
    assert_eq!(&[2, 0, 0, 0], &header[243..247]);
}

#[test]
fn format_numbers() {
    assert!(matches!(Format::new(11), Err(Error::FormatNumber(11))));
    assert!(matches!(Format::new(255), Err(Error::FormatNumber(255))));
    let lengths = [20, 28, 26, 34, 57, 63, 30, 36, 38, 59, 67];
    for n in 0..=10u8 {
        let format = Format::new(n).unwrap();
        assert_eq!(Some(n), format.to_u8());
        assert_eq!(lengths[n as usize], format.len());
        assert_eq!(0, format.extra_bytes);
    }
    let format = Format {
        extra_bytes: 5,
        ..Format::new(3).unwrap()
    };
    assert_eq!(Some(3), format.to_u8());
    assert_eq!(39, format.len());
    let odd = Format {
        has_color: true,
        is_extended: true,
        ..Default::default()
    };
    assert_eq!(None, odd.to_u8());
    assert_eq!(Format::new(0).unwrap(), Format::default());
}

#[test]
fn versions() {
    assert_eq!(Some(227), Version::new(1, 0).header_size());
    assert_eq!(Some(227), Version::new(1, 1).header_size());
    assert_eq!(Some(227), Version::new(1, 2).header_size());
    assert_eq!(Some(235), Version::new(1, 3).header_size());
    assert_eq!(Some(375), Version::new(1, 4).header_size());
    assert_eq!(None, Version::new(1, 5).header_size());
    assert_eq!(None, Version::new(0, 2).header_size());
    assert!(Version::new(1, 4).supports_evlrs());
    assert!(!Version::new(1, 3).supports_evlrs());
    assert!(Version::new(1, 0).requires_point_data_start_signature());
    assert!(!Version::new(1, 1).requires_point_data_start_signature());
    assert!(Version::new(1, 2).supports_format(3));
    assert!(!Version::new(1, 2).supports_format(4));
    assert!(!Version::new(1, 4).supports_format(11));
    assert!(!Version::new(2, 4).supports_format(0));
    let version: Version = (1, 3).into();
    assert_eq!(Version::new(1, 3), version);
    assert!(version.supported());
}

#[test]
fn finish_and_close_are_apart() {
    let (mut encoder, _) = Encoder::new(Builder::default().into_header().unwrap()).unwrap();
    encoder.write(Point::default()).unwrap();
    encoder.close().unwrap();
    assert!(encoder.is_closed());
    assert_eq!(1, encoder.header().number_of_points());
    assert!(matches!(encoder.finish(), Err(Error::Closed)));
}
