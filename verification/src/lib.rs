//! Writing LAS point-cloud files, with the file layout and the writer's
//! lifecycle stated as contracts and proved.
//!
//! A [`Writer`] is made of a [`Cursor`] and a [`Header`], takes [`Point`]s
//! one at a time, and is closed when the last point is in. It writes to
//! memory; an [`Encoder`] is the same without a stream, for an owner that
//! writes elsewhere. The library does
//! no arithmetic on real numbers: it carries them as the bit patterns of
//! their binary64 encodings, and a point brings the scaled integers of its
//! record along with its real-world coordinates.

pub mod binary64;
pub mod bounds;
pub mod bytes;
pub mod encoder;
pub mod error;
pub mod format;
pub mod header;
pub mod point;
pub mod session;
pub mod sink;
pub mod version;
pub mod vlr;
pub mod writer;

pub use crate::bounds::{Bounds, Vector};
pub use crate::encoder::Encoder;
pub use crate::error::Error;
pub use crate::header::{Builder, Header, Transform, Transforms};
pub use crate::point::{Color, Coordinate, Point, ScanDirection, Waveform};
pub use crate::sink::Cursor;
pub use crate::version::Version;
pub use crate::vlr::Vlr;
pub use crate::writer::Writer;
