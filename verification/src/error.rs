//! What can go wrong while a file is written.

use crate::format::Format;
use crate::point::Point;
use crate::version::Version;
use vstd::prelude::*;

verus! {

/// An error of the library.
#[derive(Debug)]
pub enum Error {
    /// The writer is closed.
    Closed,
    /// The optional attributes of the point are not exactly those of the
    /// point format. The point comes back with the format it was held to.
    PointAttributes(Format, Point),
    /// No point format has this number.
    FormatNumber(u8),
    /// This library cannot write files of the version.
    Version(Version),
    /// The point format's layout is none of those that LAS numbers.
    Layout(Format),
    /// The version does not know the point format.
    Format(Version, Format),
    /// A point record of the format would be longer than its length field
    /// can say.
    RecordLength(Format),
    /// A record's payload is longer than its length field can say. The value
    /// is the record's index in its list.
    VlrTooLong(usize),
    /// The version's files cannot end in extended records.
    Evlrs(Version),
    /// The file holds more records than the header can count.
    TooManyVlrs,
    /// The point records would start further into the file than the header
    /// can say.
    OffsetToPointData,
    /// The header cannot count one more point.
    TooManyPoints,
    /// The return number does not fit the point format.
    ReturnNumber(u8),
    /// The number of returns does not fit the point format.
    NumberOfReturns(u8),
    /// The classification does not fit the point format.
    Classification(u8),
    /// The point format has no overlap flag.
    Overlap,
    /// The scanner channel does not fit the point format.
    ScannerChannel(u8),
    /// The scan angle does not fit the point format.
    ScanAngle(i16),
}

} // verus!
