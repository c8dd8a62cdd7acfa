//! The file header: what a file is configured to hold, and the running
//! count and bounds of the points written so far.

use crate::bounds::{Bounds, Vector};
use crate::bytes::{group_le_len, le16, le32, le64, put_u16, put_u32, put_u64, put_zeros, zeros};
use crate::error::Error;
use crate::format::Format;
use crate::point::Point;
use crate::version::Version;
use crate::vlr::{all_short, put_table, table_bytes, table_len, table_size, Vlr};
use vstd::prelude::*;

verus! {

/// How the scaled integer of a point record turns into a real-world
/// coordinate: multiplied by the scale, then moved by the offset. Both are
/// binary64 bit patterns, which the library stores and never computes with.
#[derive(Clone, Copy, Debug, PartialEq, Eq, Structural)]
pub struct Transform {
    /// The scale, as a binary64 pattern.
    pub scale: u64,
    /// The offset, as a binary64 pattern.
    pub offset: u64,
}

/// The transforms of the three axes.
#[derive(Clone, Copy, Debug, PartialEq, Eq, Structural)]
pub struct Transforms {
    /// The transform of the x axis.
    pub x: Transform,
    /// The transform of the y axis.
    pub y: Transform,
    /// The transform of the z axis.
    pub z: Transform,
}

/// The binary64 pattern of 0.001.
pub const MILLI: u64 = 0x3F50_624D_D2F1_A9FC;

impl Default for Transform {
    /// A scale of 0.001 and an offset of zero.
    fn default() -> (t: Transform)
        ensures
            t == (Transform { scale: MILLI, offset: 0 }),
    {
        Transform { scale: MILLI, offset: 0 }
    }
}

impl Default for Transforms {
    /// The default transform on every axis.
    fn default() -> (t: Transforms)
        ensures
            t == Transforms::initial(),
    {
        Transforms {
            x: Transform { scale: MILLI, offset: 0 },
            y: Transform { scale: MILLI, offset: 0 },
            z: Transform { scale: MILLI, offset: 0 },
        }
    }
}

impl Transforms {
    /// A scale of 0.001 and an offset of zero on every axis.
    pub open spec fn initial() -> Transforms {
        Transforms {
            x: Transform { scale: MILLI, offset: 0 },
            y: Transform { scale: MILLI, offset: 0 },
            z: Transform { scale: MILLI, offset: 0 },
        }
    }

    /// The 48 bytes of the transforms in a header: the three scales, then
    /// the three offsets.
    #[verifier::opaque]
    pub open spec fn bytes(self) -> Seq<u8> {
        le64(self.x.scale as nat) + le64(self.y.scale as nat) + le64(self.z.scale as nat) + le64(
            self.x.offset as nat,
        ) + le64(self.y.offset as nat) + le64(self.z.offset as nat)
    }
}

/// The 48 bytes of the bounds in a header: on each axis the maximum, then
/// the minimum.
#[verifier::opaque]
pub open spec fn bounds_bytes(bounds: Bounds) -> Seq<u8> {
    le64(bounds.max.x as nat) + le64(bounds.min.x as nat) + le64(bounds.max.y as nat) + le64(
        bounds.min.y as nat,
    ) + le64(bounds.max.z as nat) + le64(bounds.min.z as nat)
}

/// The two bytes that a file of version 1.0 has right before its first
/// point.
pub open spec fn start_signature() -> Seq<u8> {
    seq![0xDDu8, 0xCCu8]
}

/// Whether the bytes end in the start signature.
pub open spec fn ends_in_signature(bytes: Seq<u8>) -> bool {
    bytes.len() >= 2 && bytes[bytes.len() - 2] == 0xDD && bytes[bytes.len() - 1] == 0xCC
}

/// The padding between the records and the points as a header keeps it: in
/// a version that wants the start signature there, the padding ends in it.
pub open spec fn padded(version: Version, padding: Seq<u8>) -> Seq<u8> {
    if version.has_start_signature() && !ends_in_signature(padding) {
        padding + start_signature()
    } else {
        padding
    }
}

/// What a header stands for.
pub struct HeaderView {
    /// The version of the file.
    pub version: Version,
    /// The format of the point records.
    pub point_format: Format,
    /// The transforms of the three axes.
    pub transforms: Transforms,
    /// The records between the header and the points.
    pub vlrs: Seq<Vlr>,
    /// The extended records after the last point.
    pub evlrs: Seq<Vlr>,
    /// The bytes between the records and the first point.
    pub vlr_padding: Seq<u8>,
    /// How many points were written.
    pub number_of_points: nat,
    /// The bounds of the points that were written.
    pub bounds: Bounds,
}

impl HeaderView {
    /// The header that a default builder builds: version 1.2, format 0, the
    /// default transforms, no record, no padding and no point.
    pub open spec fn initial() -> HeaderView {
        HeaderView {
            version: Version { major: 1, minor: 2 },
            point_format: crate::format::numbered(0),
            transforms: Transforms::initial(),
            vlrs: Seq::empty(),
            evlrs: Seq::empty(),
            vlr_padding: Seq::empty(),
            number_of_points: 0,
            bounds: Bounds::empty(),
        }
    }

    /// What every header holds: each record before the points has a payload
    /// whose length fits in two bytes; there are extended records only
    /// where the version has a place for them; and where the version wants
    /// the start signature before the first point, the padding ends in it.
    pub open spec fn wf(self) -> bool {
        &&& all_short(self.vlrs)
        &&& self.evlrs.len() > 0 ==> self.version.has_evlrs()
        &&& self.version.has_start_signature() ==> ends_in_signature(self.vlr_padding)
    }

    /// The header with its count at zero and its bounds empty.
    pub open spec fn cleared(self) -> HeaderView {
        HeaderView { number_of_points: 0, bounds: Bounds::empty(), ..self }
    }

    /// The header after one more point: the count is one higher and the
    /// bounds enclose the point's position.
    pub open spec fn with_point(self, point: Point) -> HeaderView {
        HeaderView {
            number_of_points: self.number_of_points + 1,
            bounds: self.bounds.grown(point.position()),
            ..self
        }
    }

    /// The header after a sequence of points, in order.
    pub open spec fn with_points(self, points: Seq<Point>) -> HeaderView
        decreases points.len(),
    {
        if points.len() == 0 {
            self
        } else {
            self.with_points(points.drop_last()).with_point(points.last())
        }
    }

    /// Where in the file the first point record starts: after the header,
    /// the records and the padding.
    pub open spec fn offset_to_point_data(self) -> nat {
        self.version.header_len() + table_len(self.vlrs, false) + self.vlr_padding.len()
    }

    /// How many points the header can report. Up to version 1.3 the count
    /// has four bytes. In version 1.4 it has eight, and the place where the
    /// extended records start, right after the last point, has to fit in
    /// eight bytes too.
    pub open spec fn capacity(self) -> nat {
        if self.version.minor <= 3 {
            0xFFFF_FFFF
        } else {
            ((u64::MAX - self.offset_to_point_data()) / (self.point_format.record_len() as int)) as nat
        }
    }

    /// Why a file cannot be laid out as the header is configured; `None` if
    /// it can. The rules, in the order in which they are held to: the
    /// version is one that the library writes; the point format is one that
    /// LAS numbers; the version knows the format; the length of a point
    /// record fits in two bytes; the counts of the records fit in four
    /// bytes each; and so does the place where the points start.
    pub open spec fn config_error(self) -> Option<Error> {
        if !self.version.is_supported() {
            Some(Error::Version(self.version))
        } else if !self.point_format.is_numbered() {
            Some(Error::Layout(self.point_format))
        } else if !self.version.knows_format(self.point_format.number()) {
            Some(Error::Format(self.version, self.point_format))
        } else if self.point_format.record_len() > u16::MAX {
            Some(Error::RecordLength(self.point_format))
        } else if self.vlrs.len() > u32::MAX || self.evlrs.len() > u32::MAX {
            Some(Error::TooManyVlrs)
        } else if self.offset_to_point_data() > u32::MAX {
            Some(Error::OffsetToPointData)
        } else {
            None
        }
    }

    /// Why the header has no binary form; `None` if it has one. It has one
    /// when the file can be laid out and the count of points is within the
    /// header's capacity.
    pub open spec fn encode_error(self) -> Option<Error> {
        match self.config_error() {
            Some(e) => Some(e),
            None => if self.number_of_points > self.capacity() {
                Some(Error::TooManyPoints)
            } else {
                None
            },
        }
    }

    /// The count of points as the four-byte field of the header says it. In
    /// version 1.4 that field is zero where the count or the format is
    /// beyond what older readers know.
    pub open spec fn legacy_count(self) -> nat {
        if self.version.minor <= 3 || (self.number_of_points <= u32::MAX
            && self.point_format.number() <= 5) {
            self.number_of_points
        } else {
            0
        }
    }

    /// Where the extended records start: right after the last point. Zero
    /// where there are none.
    pub open spec fn start_of_evlrs(self) -> nat {
        if self.evlrs.len() == 0 {
            0
        } else {
            self.offset_to_point_data() + self.number_of_points * self.point_format.record_len()
        }
    }

    /// The first 94 bytes of the header: the file signature, the version,
    /// and zero bytes for the fields that the library does not keep.
    #[verifier::opaque]
    pub open spec fn leading_bytes(self) -> Seq<u8> {
        seq![0x4Cu8, 0x41u8, 0x53u8, 0x46u8] + zeros(20) + seq![
            self.version.major,
            self.version.minor,
        ] + zeros(68)
    }

    /// The next 37 bytes: the header's size, where the points start, the
    /// count of records, the number and record length of the point format,
    /// the count of points, and zero bytes for the counts by return.
    #[verifier::opaque]
    pub open spec fn layout_bytes(self) -> Seq<u8> {
        le16(self.version.header_len()) + le32(self.offset_to_point_data()) + le32(
            self.vlrs.len(),
        ) + seq![self.point_format.number()] + le16(self.point_format.record_len()) + le32(
            self.legacy_count(),
        ) + zeros(20)
    }

    /// What follows the bounds: nothing up to version 1.2; from version
    /// 1.3 eight zero bytes for the start of the waveform data; in version
    /// 1.4 also the start and the count of the extended records, the count
    /// of points in eight bytes, and zero bytes for the counts by return.
    #[verifier::opaque]
    pub open spec fn trailing_bytes(self) -> Seq<u8> {
        if self.version.minor <= 2 {
            Seq::<u8>::empty()
        } else if self.version.minor == 3 {
            zeros(8)
        } else {
            zeros(8) + le64(self.start_of_evlrs()) + le32(self.evlrs.len()) + le64(
                self.number_of_points,
            ) + zeros(120)
        }
    }

    /// The binary form of the header.
    #[verifier::opaque]
    pub open spec fn encoding(self) -> Seq<u8> {
        self.leading_bytes() + self.layout_bytes() + self.transforms.bytes() + bounds_bytes(
            self.bounds,
        ) + self.trailing_bytes()
    }

    /// What stands before the first point: the header, the records in list
    /// order, and the padding.
    pub open spec fn preamble(self) -> Seq<u8> {
        self.encoding() + table_bytes(self.vlrs, false) + self.vlr_padding
    }

    /// What stands after the last point: the extended records in list
    /// order.
    pub open spec fn trailer(self) -> Seq<u8> {
        table_bytes(self.evlrs, true)
    }
}

/// The configuration of a file, and the count and bounds of the points
/// written to it so far.
#[derive(Debug)]
pub struct Header {
    version: Version,
    point_format: Format,
    transforms: Transforms,
    vlrs: Vec<Vlr>,
    evlrs: Vec<Vlr>,
    vlr_padding: Vec<u8>,
    number_of_points: u64,
    bounds: Bounds,
}

/// The numbers of a file's layout that the header's binary form holds.
struct Layout {
    header_len: u16,
    offset: u32,
    number: u8,
    record_len: u16,
    capacity: u64,
}

impl View for Header {
    type V = HeaderView;

    closed spec fn view(&self) -> HeaderView {
        HeaderView {
            version: self.version,
            point_format: self.point_format,
            transforms: self.transforms,
            vlrs: self.vlrs@,
            evlrs: self.evlrs@,
            vlr_padding: self.vlr_padding@,
            number_of_points: self.number_of_points as nat,
            bounds: self.bounds,
        }
    }
}

impl Header {
    /// What holds of every header: it is well-formed.
    #[verifier::type_invariant]
    pub open spec fn inv(&self) -> bool {
        self@.wf()
    }

    /// The version of the file.
    pub fn version(&self) -> (version: Version)
        ensures
            version == self@.version,
    {
        self.version
    }

    /// The format of the point records.
    pub fn point_format(&self) -> (format: Format)
        ensures
            format == self@.point_format,
    {
        self.point_format
    }

    /// The transforms of the three axes.
    pub fn transforms(&self) -> (transforms: Transforms)
        ensures
            transforms == self@.transforms,
    {
        self.transforms
    }

    /// The records between the header and the points.
    pub fn vlrs(&self) -> (vlrs: &Vec<Vlr>)
        ensures
            vlrs@ == self@.vlrs,
    {
        &self.vlrs
    }

    /// The extended records after the last point.
    pub fn evlrs(&self) -> (evlrs: &Vec<Vlr>)
        ensures
            evlrs@ == self@.evlrs,
    {
        &self.evlrs
    }

    /// The bytes between the records and the first point.
    pub fn vlr_padding(&self) -> (padding: &Vec<u8>)
        ensures
            padding@ == self@.vlr_padding,
    {
        &self.vlr_padding
    }

    /// How many points were written.
    pub fn number_of_points(&self) -> (n: u64)
        ensures
            n == self@.number_of_points,
    {
        self.number_of_points
    }

    /// The bounds of the points that were written.
    pub fn bounds(&self) -> (bounds: Bounds)
        ensures
            bounds == self@.bounds,
    {
        self.bounds
    }

    /// Puts the count back to zero and empties the bounds.
    pub fn clear(&mut self)
        ensures
            final(self)@ == old(self)@.cleared(),
    {
        proof {
            use_type_invariant(&*self);
        }
        self.number_of_points = 0;
        self.bounds = Bounds::default();
    }

    /// Counts one more point and widens the bounds to enclose it.
    pub fn add_point(&mut self, point: &Point)
        requires
            old(self)@.number_of_points < u64::MAX,
        ensures
            final(self)@ == old(self)@.with_point(*point),
        no_unwind
    {
        proof {
            use_type_invariant(&*self);
        }
        self.number_of_points = self.number_of_points + 1;
        let mut bounds = self.bounds;
        bounds.grow(Vector { x: point.x.value, y: point.y.value, z: point.z.value });
        self.bounds = bounds;
    }

    fn layout(&self) -> (r: Result<Layout, Error>)
        ensures
            r is Ok <==> self@.config_error() is None,
            r is Err ==> self@.config_error() == Some(r->Err_0),
            r is Ok ==> {
                let layout = r->Ok_0;
                &&& layout.header_len == self@.version.header_len()
                &&& layout.offset == self@.offset_to_point_data()
                &&& layout.number == self@.point_format.number()
                &&& layout.record_len == self@.point_format.record_len()
                &&& layout.capacity == self@.capacity()
            },
    {
        proof {
            use_type_invariant(self);
        }
        let header_len = match self.version.header_size() {
            Some(n) => n,
            None => {
                return Err(Error::Version(self.version));
            },
        };
        let number = match self.point_format.to_u8() {
            Some(n) => n,
            None => {
                return Err(Error::Layout(self.point_format));
            },
        };
        if !self.version.supports_format(number) {
            return Err(Error::Format(self.version, self.point_format));
        }
        let record_len = self.point_format.len();
        if record_len > 0xFFFF {
            return Err(Error::RecordLength(self.point_format));
        }
        if self.vlrs.len() > 0xFFFF_FFFF || self.evlrs.len() > 0xFFFF_FFFF {
            return Err(Error::TooManyVlrs);
        }
        if self.vlr_padding.len() > 0xFFFF_FFFF {
            return Err(Error::OffsetToPointData);
        }
        let offset: u64 = header_len as u64 + table_size(&self.vlrs) + self.vlr_padding.len() as u64;
        if offset > 0xFFFF_FFFF {
            return Err(Error::OffsetToPointData);
        }
        let capacity: u64 = if self.version.minor <= 3 {
            0xFFFF_FFFF
        } else {
            (u64::MAX - offset) / (record_len as u64)
        };
        Ok(
            Layout {
                header_len,
                offset: offset as u32,
                number,
                record_len: record_len as u16,
                capacity,
            },
        )
    }

    fn put_leading(&self, out: &mut Vec<u8>)
        ensures
            final(out)@ == old(out)@ + self@.leading_bytes(),
    {
        out.push(0x4C);
        out.push(0x41);
        out.push(0x53);
        out.push(0x46);
        assert(out@ =~= old(out)@ + seq![0x4Cu8, 0x41u8, 0x53u8, 0x46u8]);
        put_zeros(out, 20);
        let ghost head = out@;
        out.push(self.version.major);
        out.push(self.version.minor);
        assert(out@ =~= head + seq![self.version.major, self.version.minor]);
        put_zeros(out, 68);
        assert(out@ == old(out)@ + self@.leading_bytes()) by {
            reveal(HeaderView::leading_bytes);
        }
    }

    fn put_layout(&self, out: &mut Vec<u8>, layout: &Layout)
        requires
            self@.encode_error() is None,
            layout.header_len == self@.version.header_len(),
            layout.offset == self@.offset_to_point_data(),
            layout.number == self@.point_format.number(),
            layout.record_len == self@.point_format.record_len(),
            layout.capacity == self@.capacity(),
        ensures
            final(out)@ == old(out)@ + self@.layout_bytes(),
    {
        let legacy_count: u32 = if self.version.minor <= 3 || (self.number_of_points <= 0xFFFF_FFFF
            && layout.number <= 5) {
            self.number_of_points as u32
        } else {
            0
        };
        put_u16(out, layout.header_len);
        put_u32(out, layout.offset);
        put_u32(out, self.vlrs.len() as u32);
        let ghost head = out@;
        out.push(layout.number);
        assert(out@ =~= head + seq![layout.number]);
        put_u16(out, layout.record_len);
        put_u32(out, legacy_count);
        put_zeros(out, 20);
        assert(out@ == old(out)@ + self@.layout_bytes()) by {
            reveal(HeaderView::layout_bytes);
        }
    }

    fn put_transforms(&self, out: &mut Vec<u8>)
        ensures
            final(out)@ == old(out)@ + self@.transforms.bytes(),
    {
        put_u64(out, self.transforms.x.scale);
        put_u64(out, self.transforms.y.scale);
        put_u64(out, self.transforms.z.scale);
        put_u64(out, self.transforms.x.offset);
        put_u64(out, self.transforms.y.offset);
        put_u64(out, self.transforms.z.offset);
        assert(final(out)@ =~= old(out)@ + self@.transforms.bytes()) by {
            reveal(Transforms::bytes);
        }
    }

    fn put_bounds(&self, out: &mut Vec<u8>)
        ensures
            final(out)@ == old(out)@ + bounds_bytes(self@.bounds),
    {
        put_u64(out, self.bounds.max.x);
        put_u64(out, self.bounds.min.x);
        put_u64(out, self.bounds.max.y);
        put_u64(out, self.bounds.min.y);
        put_u64(out, self.bounds.max.z);
        put_u64(out, self.bounds.min.z);
        assert(final(out)@ =~= old(out)@ + bounds_bytes(self@.bounds)) by {
            reveal(bounds_bytes);
        }
    }

    fn put_trailing(&self, out: &mut Vec<u8>, layout: &Layout)
        requires
            self@.encode_error() is None,
            layout.offset == self@.offset_to_point_data(),
            layout.record_len == self@.point_format.record_len(),
            layout.capacity == self@.capacity(),
        ensures
            final(out)@ == old(out)@ + self@.trailing_bytes(),
    {
        if self.version.minor == 3 {
            put_zeros(out, 8);
        } else if self.version.minor > 3 {
            let start: u64 = if self.evlrs.len() == 0 {
                0
            } else {
                let count = self.number_of_points;
                let len = layout.record_len as u64;
                let room: u64 = u64::MAX - layout.offset as u64;
                assert(count * len <= room) by (nonlinear_arith)
                    requires
                        len > 0,
                        count <= room / len,
                ;
                layout.offset as u64 + count * len
            };
            put_zeros(out, 8);
            put_u64(out, start);
            put_u32(out, self.evlrs.len() as u32);
            put_u64(out, self.number_of_points);
            put_zeros(out, 120);
        }
        assert(final(out)@ =~= old(out)@ + self@.trailing_bytes()) by {
            reveal(HeaderView::trailing_bytes);
        }
    }

    /// The binary form of the header.
    ///
    /// Fails exactly when the header has none, with the error that
    /// [`HeaderView::encode_error`] names.
    pub fn encode(&self) -> (r: Result<Vec<u8>, Error>)
        ensures
            r is Ok <==> self@.encode_error() is None,
            r is Ok ==> r->Ok_0@ == self@.encoding(),
            r is Err ==> self@.encode_error() == Some(r->Err_0),
    {
        let layout = match self.layout() {
            Ok(layout) => layout,
            Err(e) => {
                return Err(e);
            },
        };
        if self.number_of_points > layout.capacity {
            return Err(Error::TooManyPoints);
        }
        let mut out: Vec<u8> = Vec::new();
        self.put_leading(&mut out);
        self.put_layout(&mut out, &layout);
        self.put_transforms(&mut out);
        self.put_bounds(&mut out);
        self.put_trailing(&mut out, &layout);
        assert(out@ =~= self@.encoding()) by {
            reveal(HeaderView::encoding);
        }
        Ok(out)
    }

    /// What stands before the first point: the header, the records in list
    /// order, and the padding.
    ///
    /// Fails exactly when the header has no binary form.
    pub fn preamble(&self) -> (r: Result<Vec<u8>, Error>)
        ensures
            r is Ok <==> self@.encode_error() is None,
            r is Ok ==> r->Ok_0@ == self@.preamble(),
            r is Err ==> self@.encode_error() == Some(r->Err_0),
    {
        proof {
            use_type_invariant(self);
        }
        match self.encode() {
            Err(e) => Err(e),
            Ok(mut out) => {
                put_table(&self.vlrs, &mut out, false);
                out.extend_from_slice(self.vlr_padding.as_slice());
                Ok(out)
            },
        }
    }

    /// What stands after the last point: the extended records in list
    /// order.
    pub fn trailer(&self) -> (out: Vec<u8>)
        ensures
            out@ == self@.trailer(),
    {
        let mut out: Vec<u8> = Vec::new();
        put_table(&self.evlrs, &mut out, true);
        assert(out@ =~= self@.trailer());
        out
    }
}

impl Default for Header {
    /// The header that a default builder builds.
    fn default() -> (header: Header)
        ensures
            header@ == HeaderView::initial(),
    {
        Header {
            version: Version { major: 1, minor: 2 },
            point_format: Format::default(),
            transforms: Transforms::default(),
            vlrs: Vec::new(),
            evlrs: Vec::new(),
            vlr_padding: Vec::new(),
            number_of_points: 0,
            bounds: Bounds::default(),
        }
    }
}

/// What a header is built from.
#[derive(Clone, Debug)]
pub struct Builder {
    /// The version of the file.
    pub version: Version,
    /// The format of the point records.
    pub point_format: Format,
    /// The transforms of the three axes.
    pub transforms: Transforms,
    /// The records between the header and the points.
    pub vlrs: Vec<Vlr>,
    /// The extended records after the last point.
    pub evlrs: Vec<Vlr>,
    /// The bytes between the records and the first point.
    pub vlr_padding: Vec<u8>,
}

impl Default for Builder {
    /// Version 1.2, format 0, the default transforms, no record and no
    /// padding.
    fn default() -> (builder: Builder)
        ensures
            builder.version == (Version { major: 1, minor: 2 }),
            builder.point_format == crate::format::numbered(0),
            builder.transforms == Transforms::initial(),
            builder.vlrs@ == Seq::<Vlr>::empty(),
            builder.evlrs@ == Seq::<Vlr>::empty(),
            builder.vlr_padding@ == Seq::<u8>::empty(),
    {
        Builder {
            version: Version { major: 1, minor: 2 },
            point_format: Format::default(),
            transforms: Transforms::default(),
            vlrs: Vec::new(),
            evlrs: Vec::new(),
            vlr_padding: Vec::new(),
        }
    }
}

impl Builder {
    /// The header that the builder stands for: its configuration, with the
    /// padding ending in the start signature where the version wants one,
    /// and no point yet.
    pub open spec fn built(&self) -> HeaderView {
        HeaderView {
            version: self.version,
            point_format: self.point_format,
            transforms: self.transforms,
            vlrs: self.vlrs@,
            evlrs: self.evlrs@,
            vlr_padding: padded(self.version, self.vlr_padding@),
            number_of_points: 0,
            bounds: Bounds::empty(),
        }
    }

    /// Whether the error is the one that the builder fails with: the index
    /// of the first record before the points whose payload is too long for
    /// such a record; or, where there is none, the version, if there are
    /// extended records and the version has no place for them.
    pub open spec fn fails_with(&self, e: Error) -> bool {
        match e {
            Error::VlrTooLong(i) => {
                &&& i < self.vlrs@.len()
                &&& !self.vlrs@[i as int].is_short()
                &&& all_short(self.vlrs@.take(i as int))
            },
            Error::Evlrs(version) => {
                &&& all_short(self.vlrs@)
                &&& self.evlrs@.len() > 0
                &&& !self.version.has_evlrs()
                &&& version == self.version
            },
            _ => false,
        }
    }

    /// Whether the builder's configuration makes a header.
    pub open spec fn is_buildable(&self) -> bool {
        all_short(self.vlrs@) && (self.evlrs@.len() > 0 ==> self.version.has_evlrs())
    }

    fn first_long(&self) -> (r: Option<usize>)
        ensures
            r is None <==> all_short(self.vlrs@),
            r is Some ==> self.fails_with(Error::VlrTooLong(r->0)),
    {
        let mut i: usize = 0;
        while i < self.vlrs.len()
            invariant
                i <= self.vlrs.len(),
                all_short(self.vlrs@.take(i as int)),
            decreases self.vlrs.len() - i,
        {
            if !self.vlrs[i].fits_in_vlr() {
                return Some(i);
            }
            proof {
                let next = self.vlrs@.take(i + 1);
                assert forall|j: int| 0 <= j < next.len() implies (#[trigger] next[j]).is_short() by {
                    if j < i {
                        assert(self.vlrs@.take(i as int)[j].is_short());
                    }
                }
            }
            i += 1;
        }
        assert(self.vlrs@.take(i as int) =~= self.vlrs@);
        None
    }

    /// Builds the header.
    ///
    /// Succeeds exactly when the configuration makes a header, and then
    /// gives the header that [`Builder::built`] describes. Otherwise fails
    /// with the error that [`Builder::fails_with`] describes.
    pub fn into_header(self) -> (r: Result<Header, Error>)
        ensures
            r is Ok <==> self.is_buildable(),
            r is Ok ==> r->Ok_0@ == self.built(),
            r is Err ==> self.fails_with(r->Err_0),
    {
        if let Some(i) = self.first_long() {
            return Err(Error::VlrTooLong(i));
        }
        if self.evlrs.len() > 0 && !self.version.supports_evlrs() {
            return Err(Error::Evlrs(self.version));
        }
        let ghost given = self.vlr_padding@;
        let mut padding = self.vlr_padding;
        let n = padding.len();
        let ends = n >= 2 && padding[n - 2] == 0xDD && padding[n - 1] == 0xCC;
        if self.version.requires_point_data_start_signature() && !ends {
            padding.push(0xDD);
            padding.push(0xCC);
        }
        assert(padding@ =~= padded(self.version, given));
        Ok(
            Header {
                version: self.version,
                point_format: self.point_format,
                transforms: self.transforms,
                vlrs: self.vlrs,
                evlrs: self.evlrs,
                vlr_padding: padding,
                number_of_points: 0,
                bounds: Bounds::default(),
            },
        )
    }
}

proof fn lemma_leading_len(header: HeaderView)
    ensures
        header.leading_bytes().len() == 94,
{
    reveal(HeaderView::leading_bytes);
}

proof fn lemma_layout_len(header: HeaderView)
    ensures
        header.layout_bytes().len() == 37,
{
    broadcast use group_le_len;

    reveal(HeaderView::layout_bytes);
}

proof fn lemma_transforms_len(transforms: Transforms, bounds: Bounds)
    ensures
        transforms.bytes().len() == 48,
        bounds_bytes(bounds).len() == 48,
{
    broadcast use group_le_len;

    reveal(Transforms::bytes);
    reveal(bounds_bytes);
}

proof fn lemma_trailing_len(header: HeaderView)
    ensures
        header.trailing_bytes().len() + 227 == header.version.header_len(),
{
    broadcast use group_le_len;

    reveal(HeaderView::trailing_bytes);
}

/// A version picks the header's size, and the binary form of a header is of
/// that size: 227 bytes up to version 1.2, 235 in version 1.3 and 375 from
/// version 1.4. With the records and the padding it reaches to where the
/// points start.
pub proof fn lemma_encoding_len(header: HeaderView)
    ensures
        header.encoding().len() == header.version.header_len(),
        header.preamble().len() == header.offset_to_point_data(),
{
    reveal(HeaderView::encoding);
    lemma_leading_len(header);
    lemma_layout_len(header);
    lemma_transforms_len(header.transforms, header.bounds);
    lemma_trailing_len(header);
    crate::vlr::lemma_table_len(header.vlrs, false);
}

/// The middle of three parts, cut out of the whole.
proof fn lemma_middle(whole: Seq<u8>, front: Seq<u8>, middle: Seq<u8>, back: Seq<u8>)
    requires
        whole == front + middle + back,
    ensures
        whole.subrange(front.len() as int, (front.len() + middle.len()) as int) == middle,
{
    assert(whole.subrange(front.len() as int, (front.len() + middle.len()) as int) =~= middle);
}

/// Five parts of which the second is itself made of three, put together
/// around the middle one of those three.
proof fn lemma_around_second(
    a: Seq<u8>,
    b: Seq<u8>,
    c: Seq<u8>,
    d: Seq<u8>,
    e: Seq<u8>,
    b0: Seq<u8>,
    b1: Seq<u8>,
    b2: Seq<u8>,
)
    requires
        b == b0 + b1 + b2,
    ensures
        a + b + c + d + e == (a + b0) + b1 + (b2 + c + d + e),
{
    assert(a + b + c + d + e =~= (a + b0) + b1 + (b2 + c + d + e));
}

/// Five parts of which the last is itself made of three, put together
/// around the middle one of those three.
proof fn lemma_around_last(
    a: Seq<u8>,
    b: Seq<u8>,
    c: Seq<u8>,
    d: Seq<u8>,
    e: Seq<u8>,
    e0: Seq<u8>,
    e1: Seq<u8>,
    e2: Seq<u8>,
)
    requires
        e == e0 + e1 + e2,
    ensures
        a + b + c + d + e == (a + b + c + d + e0) + e1 + e2,
{
    assert(a + b + c + d + e =~= (a + b + c + d + e0) + e1 + e2);
}

proof fn lemma_layout_parts(header: HeaderView) -> (parts: (Seq<u8>, Seq<u8>))
    ensures
        parts.0.len() == 13,
        parts.1.len() == 20,
        header.layout_bytes() == parts.0 + le32(header.legacy_count()) + parts.1,
{
    broadcast use group_le_len;

    reveal(HeaderView::layout_bytes);
    let front = le16(header.version.header_len()) + le32(header.offset_to_point_data()) + le32(
        header.vlrs.len(),
    ) + seq![header.point_format.number()] + le16(header.point_format.record_len());
    (front, zeros(20))
}

proof fn lemma_trailing_parts(header: HeaderView) -> (parts: (Seq<u8>, Seq<u8>))
    requires
        header.version.minor >= 4,
    ensures
        parts.0.len() == 20,
        parts.1.len() == 120,
        header.trailing_bytes() == parts.0 + le64(header.number_of_points) + parts.1,
{
    broadcast use group_le_len;

    reveal(HeaderView::trailing_bytes);
    let front = zeros(8) + le64(header.start_of_evlrs()) + le32(header.evlrs.len());
    (front, zeros(120))
}

/// Where the binary form of a header keeps what was counted: the count of
/// points in the four bytes from offset 107, and from version 1.4 in the
/// eight bytes from offset 247; the bounds in the 48 bytes from offset 179.
pub proof fn lemma_encoding_holds_count_and_bounds(header: HeaderView)
    ensures
        header.encoding().subrange(107, 111) == le32(header.legacy_count()),
        header.encoding().subrange(179, 227) == bounds_bytes(header.bounds),
        header.version.minor >= 4 ==> header.encoding().subrange(247, 255) == le64(
            header.number_of_points,
        ),
{
    broadcast use group_le_len;

    let leading = header.leading_bytes();
    let layout = header.layout_bytes();
    let transforms = header.transforms.bytes();
    let bounds = bounds_bytes(header.bounds);
    let trailing = header.trailing_bytes();
    let whole = header.encoding();
    assert(whole == leading + layout + transforms + bounds + trailing) by {
        reveal(HeaderView::encoding);
    }
    lemma_leading_len(header);
    lemma_layout_len(header);
    lemma_transforms_len(header.transforms, header.bounds);
    let count = le32(header.legacy_count());
    let parts = lemma_layout_parts(header);
    lemma_around_second(leading, layout, transforms, bounds, trailing, parts.0, count, parts.1);
    lemma_middle(whole, leading + parts.0, count, parts.1 + transforms + bounds + trailing);
    lemma_middle(whole, leading + layout + transforms, bounds, trailing);
    if header.version.minor >= 4 {
        let long = le64(header.number_of_points);
        let parts = lemma_trailing_parts(header);
        lemma_around_last(leading, layout, transforms, bounds, trailing, parts.0, long, parts.1);
        lemma_middle(whole, leading + layout + transforms + bounds + parts.0, long, parts.1);
    }
}

/// In a version that wants the start signature, the two bytes right before
/// the first point are the signature.
pub proof fn lemma_points_follow_signature(header: HeaderView)
    requires
        header.wf(),
        header.version.has_start_signature(),
    ensures
        ends_in_signature(header.preamble()),
{
    let front = header.encoding() + table_bytes(header.vlrs, false);
    let whole = header.preamble();
    let n = header.vlr_padding.len();
    assert(whole == front + header.vlr_padding);
    assert(whole[whole.len() - 2] == header.vlr_padding[n - 2]);
    assert(whole[whole.len() - 1] == header.vlr_padding[n - 1]);
}

/// Counting points changes nothing but the count and the bounds: what a
/// file is configured to hold stays as it was, and so do its capacity and
/// the rules that its layout is held to.
pub proof fn lemma_with_point_keeps_config(header: HeaderView, point: Point)
    ensures
        header.with_point(point).config_error() == header.config_error(),
        header.with_point(point).capacity() == header.capacity(),
        header.with_point(point).wf() == header.wf(),
        header.with_point(point).offset_to_point_data() == header.offset_to_point_data(),
        header.with_point(point).trailer() == header.trailer(),
{
}

/// After a run of points the count has grown by their number and the bounds
/// are those of the positions that were there before, grown by each new
/// position in turn; started from a cleared header, the count is the number
/// of points and the bounds are the bounds of their positions.
pub proof fn lemma_with_points(header: HeaderView, points: Seq<Point>)
    ensures
        header.with_points(points).number_of_points == header.number_of_points + points.len(),
        header.with_points(points) == (HeaderView {
            number_of_points: header.number_of_points + points.len(),
            bounds: header.with_points(points).bounds,
            ..header
        }),
        header.cleared().with_points(points).bounds == crate::bounds::bounds_of(
            points.map_values(|p: Point| p.position()),
        ),
    decreases points.len(),
{
    let positions = points.map_values(|p: Point| p.position());
    if points.len() > 0 {
        lemma_with_points(header, points.drop_last());
        assert(positions.drop_last() =~= points.drop_last().map_values(|p: Point| p.position()));
        assert(positions.last() == points.last().position());
    }
}

} // verus!
