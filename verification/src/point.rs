//! Points, and their binary records.

use crate::bytes::{group_le_len, le16, le32, le64, put_i16, put_i32, put_i8, put_slice, put_u16, put_u32, put_u64, unsigned};
use crate::bounds::Vector;
use crate::error::Error;
pub use crate::format::Format;
use vstd::prelude::*;

verus! {

/// One coordinate of a point, as a file knows it.
///
/// A file keeps each coordinate twice over: the header's bounds are
/// real-world values, and a point record holds an integer that the header's
/// scale and offset turn back into such a value. Both are given here. The
/// library does no arithmetic on real values, so it never derives one from
/// the other: whoever builds the point does.
#[derive(Clone, Copy, Debug, PartialEq, Eq, Structural)]
pub struct Coordinate {
    /// The real-world value, as the bit pattern of its binary64 encoding.
    pub value: u64,
    /// The scaled integer that the point record stores.
    pub record: i32,
}

/// A color: red, green and blue samples.
#[derive(Clone, Copy, Debug, PartialEq, Eq, Structural)]
pub struct Color {
    /// The red sample.
    pub red: u16,
    /// The green sample.
    pub green: u16,
    /// The blue sample.
    pub blue: u16,
}

/// A reference from a point to its waveform packet.
#[derive(Clone, Copy, Debug, PartialEq, Eq, Structural)]
pub struct Waveform {
    /// The index of the record that describes the packet.
    pub wave_packet_descriptor_index: u8,
    /// Where the packet starts in the waveform data.
    pub byte_offset_to_waveform_data: u64,
    /// The size of the packet in bytes.
    pub waveform_packet_size_in_bytes: u32,
    /// Where in the waveform the return was found, as a binary32 pattern.
    pub return_point_waveform_location: u32,
    /// The x component of the parametric line, as a binary32 pattern.
    pub x_t: u32,
    /// The y component of the parametric line, as a binary32 pattern.
    pub y_t: u32,
    /// The z component of the parametric line, as a binary32 pattern.
    pub z_t: u32,
}

/// The direction in which the scanner's mirror was moving.
#[derive(Clone, Copy, Debug, PartialEq, Eq, Structural)]
pub enum ScanDirection {
    /// From the right of the track to its left.
    RightToLeft,
    /// From the left of the track to its right.
    LeftToRight,
}

/// A point of a point cloud.
#[derive(Clone, Debug, PartialEq, Eq)]
pub struct Point {
    /// The x coordinate.
    pub x: Coordinate,
    /// The y coordinate.
    pub y: Coordinate,
    /// The z coordinate.
    pub z: Coordinate,
    /// The strength of the return.
    pub intensity: u16,
    /// Which return of its pulse the point is.
    pub return_number: u8,
    /// How many returns its pulse had.
    pub number_of_returns: u8,
    /// The direction of the scan.
    pub scan_direction: ScanDirection,
    /// Whether the point is the last of a scan line.
    pub is_edge_of_flight_line: bool,
    /// The class of the point.
    pub classification: u8,
    /// Whether the point was made by other means than a measurement.
    pub is_synthetic: bool,
    /// Whether the point is a key point of the model.
    pub is_key_point: bool,
    /// Whether the point is to be left out of processing.
    pub is_withheld: bool,
    /// Whether the point lies where two swaths overlap.
    pub is_overlap: bool,
    /// The channel of a scanner with several heads.
    pub scanner_channel: u8,
    /// The scan angle in the unit of the record layout: whole degrees in the
    /// layouts 0 to 5, steps of 0.006 degrees in the extended layouts.
    pub scan_angle: i16,
    /// A byte for the user.
    pub user_data: u8,
    /// The source that the point came from.
    pub point_source_id: u16,
    /// The time of capture, as a binary64 pattern.
    pub gps_time: Option<u64>,
    /// The color.
    pub color: Option<Color>,
    /// The reference to the waveform packet.
    pub waveform: Option<Waveform>,
    /// The near-infrared sample.
    pub nir: Option<u16>,
    /// The extra bytes.
    pub extra_bytes: Vec<u8>,
}

impl Default for Coordinate {
    /// The coordinate zero.
    fn default() -> (c: Coordinate)
        ensures
            c == (Coordinate { value: 0, record: 0 }),
    {
        Coordinate { value: 0, record: 0 }
    }
}

impl Color {
    /// The color with the given samples.
    pub fn new(red: u16, green: u16, blue: u16) -> (c: Color)
        ensures
            c == (Color { red, green, blue }),
    {
        Color { red, green, blue }
    }
}

impl Default for Color {
    /// Black.
    fn default() -> (c: Color)
        ensures
            c == (Color { red: 0, green: 0, blue: 0 }),
    {
        Color { red: 0, green: 0, blue: 0 }
    }
}

impl Default for Waveform {
    /// A reference whose fields are all zero.
    fn default() -> (w: Waveform)
        ensures
            w == (Waveform {
                wave_packet_descriptor_index: 0,
                byte_offset_to_waveform_data: 0,
                waveform_packet_size_in_bytes: 0,
                return_point_waveform_location: 0,
                x_t: 0,
                y_t: 0,
                z_t: 0,
            }),
    {
        Waveform {
            wave_packet_descriptor_index: 0,
            byte_offset_to_waveform_data: 0,
            waveform_packet_size_in_bytes: 0,
            return_point_waveform_location: 0,
            x_t: 0,
            y_t: 0,
            z_t: 0,
        }
    }
}

impl Default for Point {
    /// The point at the origin with every field zero and no optional
    /// attribute.
    fn default() -> (p: Point)
        ensures
            p.x == (Coordinate { value: 0, record: 0 }),
            p.y == p.x,
            p.z == p.x,
            p.intensity == 0,
            p.return_number == 0,
            p.number_of_returns == 0,
            p.scan_direction == ScanDirection::RightToLeft,
            !p.is_edge_of_flight_line,
            p.classification == 0,
            !p.is_synthetic && !p.is_key_point && !p.is_withheld && !p.is_overlap,
            p.scanner_channel == 0,
            p.scan_angle == 0,
            p.user_data == 0,
            p.point_source_id == 0,
            p.gps_time is None && p.color is None && p.waveform is None && p.nir is None,
            p.extra_bytes@ == Seq::<u8>::empty(),
    {
        Point {
            x: Coordinate { value: 0, record: 0 },
            y: Coordinate { value: 0, record: 0 },
            z: Coordinate { value: 0, record: 0 },
            intensity: 0,
            return_number: 0,
            number_of_returns: 0,
            scan_direction: ScanDirection::RightToLeft,
            is_edge_of_flight_line: false,
            classification: 0,
            is_synthetic: false,
            is_key_point: false,
            is_withheld: false,
            is_overlap: false,
            scanner_channel: 0,
            scan_angle: 0,
            user_data: 0,
            point_source_id: 0,
            gps_time: None,
            color: None,
            waveform: None,
            nir: None,
            extra_bytes: Vec::new(),
        }
    }
}

/// 1 for `true` and 0 for `false`.
pub open spec fn bit(b: bool) -> nat {
    if b {
        1
    } else {
        0
    }
}

impl ScanDirection {
    /// The value of the record's scan direction bit.
    pub open spec fn flag(&self) -> nat {
        bit(*self == ScanDirection::LeftToRight)
    }
}

impl Color {
    /// The six bytes of a color in a record: red, green, blue.
    pub open spec fn bytes(&self) -> Seq<u8> {
        le16(self.red as nat) + le16(self.green as nat) + le16(self.blue as nat)
    }

    fn put(&self, out: &mut Vec<u8>)
        ensures
            final(out)@ == old(out)@ + self.bytes(),
    {
        put_u16(out, self.red);
        put_u16(out, self.green);
        put_u16(out, self.blue);
        assert(final(out)@ =~= old(out)@ + self.bytes());
    }
}

impl Waveform {
    /// The 29 bytes of a waveform reference in a record.
    pub open spec fn bytes(&self) -> Seq<u8> {
        seq![self.wave_packet_descriptor_index] + le64(self.byte_offset_to_waveform_data as nat)
            + le32(self.waveform_packet_size_in_bytes as nat) + le32(
            self.return_point_waveform_location as nat,
        ) + le32(self.x_t as nat) + le32(self.y_t as nat) + le32(self.z_t as nat)
    }

    fn put(&self, out: &mut Vec<u8>)
        ensures
            final(out)@ == old(out)@ + self.bytes(),
    {
        out.push(self.wave_packet_descriptor_index);
        put_u64(out, self.byte_offset_to_waveform_data);
        put_u32(out, self.waveform_packet_size_in_bytes);
        put_u32(out, self.return_point_waveform_location);
        put_u32(out, self.x_t);
        put_u32(out, self.y_t);
        put_u32(out, self.z_t);
        assert(final(out)@ =~= old(out)@ + self.bytes());
    }
}

impl Point {
    /// The first of the point's fields that a record cannot hold, as the
    /// error that says so; `None` if the record can hold them all.
    ///
    /// A record of the layouts 0 to 5 has three bits each for the return
    /// number and the number of returns, five for the classification, one
    /// signed byte for the scan angle, and neither an overlap flag nor a
    /// scanner channel. An extended record has four bits each for the
    /// return number and the number of returns and two for the scanner
    /// channel.
    pub open spec fn field_error(&self, extended: bool) -> Option<Error> {
        let limit: u8 = if extended { 15 } else { 7 };
        if self.return_number > limit {
            Some(Error::ReturnNumber(self.return_number))
        } else if self.number_of_returns > limit {
            Some(Error::NumberOfReturns(self.number_of_returns))
        } else if extended {
            if self.scanner_channel > 3 {
                Some(Error::ScannerChannel(self.scanner_channel))
            } else {
                None
            }
        } else if self.classification > 31 {
            Some(Error::Classification(self.classification))
        } else if self.is_overlap {
            Some(Error::Overlap)
        } else if self.scanner_channel != 0 {
            Some(Error::ScannerChannel(self.scanner_channel))
        } else if self.scan_angle < -128 || self.scan_angle > 127 {
            Some(Error::ScanAngle(self.scan_angle))
        } else {
            None
        }
    }

    /// The real-world position of the point.
    pub open spec fn position(&self) -> Vector {
        Vector { x: self.x.value, y: self.y.value, z: self.z.value }
    }

    /// The twelve bytes of the three scaled coordinates.
    pub open spec fn position_bytes(&self) -> Seq<u8> {
        le32(unsigned(self.x.record as int, 0x1_0000_0000)) + le32(
            unsigned(self.y.record as int, 0x1_0000_0000),
        ) + le32(unsigned(self.z.record as int, 0x1_0000_0000))
    }

    /// The byte of a record of the layouts 0 to 5 that holds the return
    /// number, the number of returns, the scan direction and the edge flag.
    pub open spec fn return_byte(&self) -> int {
        self.return_number + self.number_of_returns * 8 + self.scan_direction.flag() * 64 + bit(
            self.is_edge_of_flight_line,
        ) * 128
    }

    /// The byte of a record of the layouts 0 to 5 that holds the
    /// classification and its three flags.
    pub open spec fn class_byte(&self) -> int {
        self.classification + bit(self.is_synthetic) * 32 + bit(self.is_key_point) * 64 + bit(
            self.is_withheld,
        ) * 128
    }

    /// The byte of an extended record that holds the return number and the
    /// number of returns.
    pub open spec fn extended_return_byte(&self) -> int {
        self.return_number + self.number_of_returns * 16
    }

    /// The byte of an extended record that holds the four classification
    /// flags, the scanner channel, the scan direction and the edge flag.
    pub open spec fn extended_flag_byte(&self) -> int {
        bit(self.is_synthetic) + bit(self.is_key_point) * 2 + bit(self.is_withheld) * 4 + bit(
            self.is_overlap,
        ) * 8 + self.scanner_channel * 16 + self.scan_direction.flag() * 64 + bit(
            self.is_edge_of_flight_line,
        ) * 128
    }

    /// The fields that every record has, in the order of the layouts 0 to
    /// 5 (20 bytes) or of the extended layouts (22 bytes).
    pub open spec fn core_bytes(&self, extended: bool) -> Seq<u8> {
        if extended {
            self.position_bytes() + le16(self.intensity as nat) + seq![
                self.extended_return_byte() as u8,
                self.extended_flag_byte() as u8,
                self.classification,
                self.user_data,
            ] + le16(unsigned(self.scan_angle as int, 0x1_0000)) + le16(
                self.point_source_id as nat,
            )
        } else {
            self.position_bytes() + le16(self.intensity as nat) + seq![
                self.return_byte() as u8,
                self.class_byte() as u8,
                unsigned(self.scan_angle as int, 0x100) as u8,
                self.user_data,
            ] + le16(self.point_source_id as nat)
        }
    }

    /// The bytes of the optional attributes that the point has, in the
    /// order of a record: time, color, near-infrared sample, waveform
    /// reference.
    pub open spec fn attribute_bytes(&self) -> Seq<u8> {
        (match self.gps_time {
            Some(t) => le64(t as nat),
            None => Seq::<u8>::empty(),
        }) + (match self.color {
            Some(c) => c.bytes(),
            None => Seq::<u8>::empty(),
        }) + (match self.nir {
            Some(n) => le16(n as nat),
            None => Seq::<u8>::empty(),
        }) + (match self.waveform {
            Some(w) => w.bytes(),
            None => Seq::<u8>::empty(),
        })
    }

    /// The point's binary record: the core fields, the optional attributes
    /// that the point has, and its extra bytes.
    #[verifier::opaque]
    pub open spec fn record(&self, extended: bool) -> Seq<u8> {
        self.core_bytes(extended) + self.attribute_bytes() + self.extra_bytes@
    }

    fn put_position(&self, out: &mut Vec<u8>)
        ensures
            final(out)@ == old(out)@ + self.position_bytes(),
    {
        put_i32(out, self.x.record);
        put_i32(out, self.y.record);
        put_i32(out, self.z.record);
        assert(final(out)@ =~= old(out)@ + self.position_bytes());
    }

    fn direction_bit(&self) -> (r: u8)
        ensures
            r == self.scan_direction.flag(),
    {
        match self.scan_direction {
            ScanDirection::RightToLeft => 0,
            ScanDirection::LeftToRight => 1,
        }
    }

    fn legacy_flags(&self) -> (r: (u8, u8))
        requires
            self.field_error(false) is None,
        ensures
            r.0 == self.return_byte(),
            r.1 == self.class_byte(),
    {
        let direction = self.direction_bit();
        let edge: u8 = if self.is_edge_of_flight_line { 1 } else { 0 };
        let synthetic: u8 = if self.is_synthetic { 1 } else { 0 };
        let key_point: u8 = if self.is_key_point { 1 } else { 0 };
        let withheld: u8 = if self.is_withheld { 1 } else { 0 };
        (
            self.return_number + self.number_of_returns * 8 + direction * 64 + edge * 128,
            self.classification + synthetic * 32 + key_point * 64 + withheld * 128,
        )
    }

    fn extended_flags(&self) -> (r: (u8, u8))
        requires
            self.field_error(true) is None,
        ensures
            r.0 == self.extended_return_byte(),
            r.1 == self.extended_flag_byte(),
    {
        let direction = self.direction_bit();
        let edge: u8 = if self.is_edge_of_flight_line { 1 } else { 0 };
        let synthetic: u8 = if self.is_synthetic { 1 } else { 0 };
        let key_point: u8 = if self.is_key_point { 1 } else { 0 };
        let withheld: u8 = if self.is_withheld { 1 } else { 0 };
        let overlap: u8 = if self.is_overlap { 1 } else { 0 };
        (
            self.return_number + self.number_of_returns * 16,
            synthetic + key_point * 2 + withheld * 4 + overlap * 8 + self.scanner_channel * 16
                + direction * 64 + edge * 128,
        )
    }

    fn put_core(&self, out: &mut Vec<u8>, extended: bool)
        requires
            self.field_error(extended) is None,
        ensures
            final(out)@ == old(out)@ + self.core_bytes(extended),
    {
        self.put_position(out);
        put_u16(out, self.intensity);
        let ghost head = out@;
        if extended {
            let flags = self.extended_flags();
            out.push(flags.0);
            out.push(flags.1);
            out.push(self.classification);
            out.push(self.user_data);
            assert(out@ =~= head + seq![flags.0, flags.1, self.classification, self.user_data]);
            put_i16(out, self.scan_angle);
        } else {
            let flags = self.legacy_flags();
            let angle = self.scan_angle as i8;
            let ghost angle_byte = unsigned(angle as int, 0x100) as u8;
            out.push(flags.0);
            out.push(flags.1);
            put_i8(out, angle);
            out.push(self.user_data);
            assert(out@ =~= head + seq![flags.0, flags.1, angle_byte, self.user_data]);
        }
        put_u16(out, self.point_source_id);
    }

    fn put_attributes(&self, out: &mut Vec<u8>)
        ensures
            final(out)@ == old(out)@ + self.attribute_bytes(),
    {
        if let Some(t) = self.gps_time {
            put_u64(out, t);
        }
        if let Some(c) = self.color {
            c.put(out);
        }
        if let Some(n) = self.nir {
            put_u16(out, n);
        }
        if let Some(w) = self.waveform {
            w.put(out);
        }
        assert(final(out)@ =~= old(out)@ + self.attribute_bytes());
    }

    /// Finds the first of the point's fields that a record cannot hold.
    pub fn check_fields(&self, extended: bool) -> (r: Result<(), Error>)
        ensures
            r is Ok <==> self.field_error(extended) is None,
            r is Err ==> self.field_error(extended) == Some(r->Err_0),
    {
        let limit: u8 = if extended { 15 } else { 7 };
        if self.return_number > limit {
            Err(Error::ReturnNumber(self.return_number))
        } else if self.number_of_returns > limit {
            Err(Error::NumberOfReturns(self.number_of_returns))
        } else if extended {
            if self.scanner_channel > 3 {
                Err(Error::ScannerChannel(self.scanner_channel))
            } else {
                Ok(())
            }
        } else if self.classification > 31 {
            Err(Error::Classification(self.classification))
        } else if self.is_overlap {
            Err(Error::Overlap)
        } else if self.scanner_channel != 0 {
            Err(Error::ScannerChannel(self.scanner_channel))
        } else if self.scan_angle < -128 || self.scan_angle > 127 {
            Err(Error::ScanAngle(self.scan_angle))
        } else {
            Ok(())
        }
    }

    /// The point's binary record, in the extended layout or in that of the
    /// formats 0 to 5.
    ///
    /// Fails exactly when a field does not fit the layout, with the error
    /// that [`Point::field_error`] names.
    pub fn encode(&self, extended: bool) -> (r: Result<Vec<u8>, Error>)
        ensures
            r is Ok <==> self.field_error(extended) is None,
            r is Ok ==> r->Ok_0@ == self.record(extended),
            r is Err ==> self.field_error(extended) == Some(r->Err_0),
    {
        match self.check_fields(extended) {
            Err(e) => Err(e),
            Ok(()) => {
                let mut out: Vec<u8> = Vec::new();
                self.put_core(&mut out, extended);
                self.put_attributes(&mut out);
                put_slice(&mut out, self.extra_bytes.as_slice());
                assert(out@ =~= self.record(extended)) by {
                    reveal(Point::record);
                }
                Ok(out)
            },
        }
    }

    /// Whether the point's optional attributes are exactly those of the
    /// format: each attribute is present if and only if the format has it,
    /// and the point has as many extra bytes as the format says.
    pub open spec fn fits(&self, format: Format) -> bool {
        &&& self.gps_time is Some <==> format.has_gps_time
        &&& self.color is Some <==> format.has_color
        &&& self.waveform is Some <==> format.has_waveform
        &&& self.nir is Some <==> format.has_nir
        &&& self.extra_bytes@.len() == format.extra_bytes
    }

    /// Tells whether the point's optional attributes are exactly those of
    /// the format.
    pub fn matches(&self, format: Format) -> (r: bool)
        ensures
            r == self.fits(format),
    {
        self.gps_time.is_some() == format.has_gps_time && self.color.is_some() == format.has_color
            && self.waveform.is_some() == format.has_waveform && self.nir.is_some()
            == format.has_nir && self.extra_bytes.len() == format.extra_bytes as usize
    }
}

/// The record of a point whose attributes are those of the format is as
/// long as the format says.
pub proof fn lemma_record_len(point: Point, format: Format)
    requires
        point.fits(format),
    ensures
        point.record(format.is_extended).len() == format.record_len(),
{
    broadcast use group_le_len;

    reveal(Point::record);
}

} // verus!
