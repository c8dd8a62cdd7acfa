//! The writer: it turns a header and a run of points into the bytes of a
//! file.
//!
//! A file starts with its header, and the header says how many points the
//! file holds and where they lie. So a writer puts a header without points
//! at the start of the stream when it is made, appends a record for every
//! point, and, when it is closed, goes back to the start and puts the
//! header there once more, now with the count and the bounds of the points
//! that were written.

use crate::encoder::{Encoder, EncoderView};
use crate::error::Error;
use crate::header::{Header, HeaderView};
use crate::point::Point;
use crate::sink::{written, Cursor};
use vstd::prelude::*;

verus! {

/// What a writer stands for: its encoder, and the stream that it writes.
pub struct WriterView {
    /// Whether the writer is closed, and its header.
    pub encoder: EncoderView,
    /// The bytes of the stream.
    pub contents: Seq<u8>,
    /// Where in the stream the next write goes.
    pub position: nat,
}

impl WriterView {
    /// The writer that is made of a stream and a header: the header's count
    /// and bounds are cleared, and what stands before the first point is
    /// written at the stream's position.
    pub open spec fn opened(contents: Seq<u8>, position: nat, header: HeaderView) -> WriterView {
        let preamble = header.cleared().preamble();
        WriterView {
            encoder: EncoderView::opened(header),
            contents: written(contents, position, preamble),
            position: position + preamble.len(),
        }
    }

    /// The writer after it has taken the point: the point's record is
    /// written at the stream's position, and the header counts and encloses
    /// the point.
    pub open spec fn after_write(self, point: Point) -> WriterView {
        let record = self.encoder.record(point);
        WriterView {
            encoder: self.encoder.after_write(point),
            contents: written(self.contents, self.position, record),
            position: self.position + record.len(),
        }
    }

    /// The writer after it was closed: the extended records are written at
    /// the stream's position, and then the header, as it now is, at the
    /// start of the stream.
    pub open spec fn after_close(self) -> WriterView {
        let header = self.encoder.header.encoding();
        WriterView {
            encoder: self.encoder.after_close(),
            contents: written(
                written(self.contents, self.position, self.encoder.header.trailer()),
                0,
                header,
            ),
            position: header.len(),
        }
    }
}

/// Writes the points of a file to a buffer in memory.
///
/// The writer does not close itself when it goes out of use: a file is
/// complete only after [`Writer::close`] or [`Writer::into_inner`].
#[derive(Debug)]
pub struct Writer {
    encoder: Encoder,
    sink: Cursor,
}

impl View for Writer {
    type V = WriterView;

    closed spec fn view(&self) -> WriterView {
        WriterView {
            encoder: self.encoder@,
            contents: self.sink.bytes(),
            position: self.sink.offset(),
        }
    }
}

impl Writer {
    /// Makes a writer of a buffer and a header, and writes what stands
    /// before the first point at the buffer's position.
    ///
    /// The header's count and bounds are cleared first. Fails exactly when
    /// the cleared header has no binary form, with the header's error.
    pub fn new(sink: Cursor, header: Header) -> (r: Result<Writer, Error>)
        ensures
            r is Ok <==> header@.cleared().encode_error() is None,
            r is Ok ==> r->Ok_0@.encoder.is_valid(),
            r is Ok ==> r->Ok_0@ == WriterView::opened(sink.bytes(), sink.offset(), header@),
            r is Err ==> header@.cleared().encode_error() == Some(r->Err_0),
    {
        let mut sink = sink;
        match Encoder::new(header) {
            Ok((encoder, preamble)) => {
                sink.write_all(preamble.as_slice());
                Ok(Writer { encoder, sink })
            },
            Err(e) => Err(e),
        }
    }

    /// Tells whether the writer is closed.
    pub fn is_closed(&self) -> (closed: bool)
        ensures
            closed == self@.encoder.closed,
            self@.encoder.is_valid(),
    {
        self.encoder.is_closed()
    }

    /// The header, with the count and the bounds of the points written so
    /// far.
    pub fn header(&self) -> (header: &Header)
        ensures
            header@ == self@.encoder.header,
            self@.encoder.is_valid(),
    {
        self.encoder.header()
    }

    /// Writes a point: appends its record to the stream, counts it in the
    /// header and widens the bounds to enclose it.
    ///
    /// Fails exactly when [`EncoderView::write_error`] names an error, with
    /// that error, and then changes nothing: neither the header nor the
    /// stream. A point is taken also where the header's binary form cannot
    /// say the new count; the writer then cannot be closed.
    pub fn write(&mut self, point: Point) -> (r: Result<(), Error>)
        ensures
            final(self)@.encoder.is_valid(),
            r is Ok <==> old(self)@.encoder.write_error(point) is None,
            r is Ok ==> final(self)@ == old(self)@.after_write(point),
            r is Err ==> old(self)@.encoder.write_error(point) == Some(r->Err_0),
            r is Err ==> final(self)@ == old(self)@,
    {
        match self.encoder.write(point) {
            Ok(record) => {
                self.sink.write_all(record.as_slice());
                Ok(())
            },
            Err(e) => Err(e),
        }
    }

    /// Closes the writer: appends the extended records, goes back to the
    /// start of the stream, and writes the header once more, with the count
    /// and the bounds of the points that were written.
    ///
    /// Fails exactly when [`EncoderView::close_error`] names an error, with
    /// that error, and then changes nothing: with [`Error::Closed`] where
    /// the writer is closed already; and with the header's error where the
    /// header has no binary form, which leaves the writer open.
    pub fn close(&mut self) -> (r: Result<(), Error>)
        ensures
            final(self)@.encoder.is_valid(),
            r is Ok <==> old(self)@.encoder.close_error() is None,
            r is Ok ==> final(self)@ == old(self)@.after_close(),
            r is Err ==> old(self)@.encoder.close_error() == Some(r->Err_0),
            r is Err ==> final(self)@ == old(self)@,
    {
        match self.encoder.finish() {
            Ok((trailer, header)) => {
                self.sink.write_all(trailer.as_slice());
                self.sink.rewind();
                self.sink.write_all(header.as_slice());
                self.encoder.close()
            },
            Err(e) => Err(e),
        }
    }

    /// Closes the writer if it is open, and gives back its buffer, rewound
    /// to the start of the stream.
    ///
    /// Fails exactly when the writer is open and cannot be closed, with the
    /// error that closing fails with.
    pub fn into_inner(self) -> (r: Result<Cursor, Error>)
        ensures
            r is Ok <==> self@.encoder.closed || self@.encoder.close_error() is None,
            r is Ok ==> r->Ok_0.offset() == 0,
            r is Ok ==> r->Ok_0.bytes() == (if self@.encoder.closed {
                self@.contents
            } else {
                self@.after_close().contents
            }),
            r is Err ==> self@.encoder.close_error() == Some(r->Err_0),
    {
        let mut writer = self;
        if !writer.encoder.is_closed() {
            if let Err(e) = writer.close() {
                return Err(e);
            }
        }
        let mut sink = writer.sink;
        sink.rewind();
        Ok(sink)
    }
}

impl Default for Writer {
    /// A writer with the default header that writes to an empty buffer.
    fn default() -> (writer: Writer)
        ensures
            writer@.encoder.is_valid(),
            writer@ == WriterView::opened(Seq::<u8>::empty(), 0, HeaderView::initial()),
    {
        let header = Header::default();
        proof {
            crate::format::lemma_format_numbers(0, 0);
            assert(header@.cleared().config_error() is None);
        }
        match Writer::new(Cursor::new(Vec::new()), header) {
            Ok(writer) => writer,
            Err(_) => vstd::pervasive::unreached(),
        }
    }
}

} // verus!
