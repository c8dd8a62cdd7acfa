//! The part of a writer that decides and encodes, apart from any stream.
//!
//! An encoder keeps the header of a file and knows whether the file is
//! open. It says which bytes go into the stream at each step, and leaves it
//! to its owner to put them there: the owner writes what [`Encoder::new`]
//! returns at the start of the stream, appends what each
//! [`Encoder::write`] returns, and on [`Encoder::finish`] appends the first
//! part, goes back to the start of the stream and writes the second.

use crate::error::Error;
use crate::header::{lemma_with_point_keeps_config, Header, HeaderView};
use crate::point::Point;
use vstd::prelude::*;

verus! {

/// What an encoder stands for: whether it is closed, and its header.
pub struct EncoderView {
    /// Whether the encoder is closed.
    pub closed: bool,
    /// The header, with the count and the bounds of the points taken.
    pub header: HeaderView,
}

impl EncoderView {
    /// What holds of every encoder: its header is well-formed, and a file
    /// can be laid out as the header is configured.
    pub open spec fn is_valid(self) -> bool {
        self.header.wf() && self.header.config_error() is None
    }

    /// The encoder that is made of a header: open, with the header's count
    /// and bounds cleared.
    pub open spec fn opened(header: HeaderView) -> EncoderView {
        EncoderView { closed: false, header: header.cleared() }
    }

    /// Why the encoder turns the point down; `None` if it takes it. The
    /// rules, in the order in which they are held to: the encoder is open;
    /// the point's optional attributes are exactly those of the point
    /// format; the counter of points, which has 64 bits, is not at its
    /// last value; and the point's fields fit the record layout.
    ///
    /// Whether the header's binary form can say the count is no rule here:
    /// a point is taken also where it cannot, and then the encoder cannot
    /// be finished.
    pub open spec fn write_error(self, point: Point) -> Option<Error> {
        if self.closed {
            Some(Error::Closed)
        } else if !point.fits(self.header.point_format) {
            Some(Error::PointAttributes(self.header.point_format, point))
        } else if self.header.number_of_points >= u64::MAX {
            Some(Error::TooManyPoints)
        } else {
            point.field_error(self.header.point_format.is_extended)
        }
    }

    /// The record of a point in the layout of the header's point format.
    pub open spec fn record(self, point: Point) -> Seq<u8> {
        point.record(self.header.point_format.is_extended)
    }

    /// The encoder after it has taken the point: the header counts and
    /// encloses the point.
    pub open spec fn after_write(self, point: Point) -> EncoderView {
        EncoderView { closed: self.closed, header: self.header.with_point(point) }
    }

    /// Why the file cannot be closed; `None` if it can. A file is closed
    /// once, and to close it the header needs a binary form: it has none
    /// where more points were taken than the header can report.
    pub open spec fn close_error(self) -> Option<Error> {
        if self.closed {
            Some(Error::Closed)
        } else {
            self.header.encode_error()
        }
    }

    /// The encoder after it was closed.
    pub open spec fn after_close(self) -> EncoderView {
        EncoderView { closed: true, header: self.header }
    }
}

/// Keeps the header of a file that is being written, and encodes what goes
/// into the file.
#[derive(Debug)]
pub struct Encoder {
    closed: bool,
    header: Header,
}

impl View for Encoder {
    type V = EncoderView;

    closed spec fn view(&self) -> EncoderView {
        EncoderView { closed: self.closed, header: self.header@ }
    }
}

impl Encoder {
    /// What holds of every encoder: it stands for a valid one.
    #[verifier::type_invariant]
    pub closed spec fn inv(&self) -> bool {
        self@.is_valid()
    }

    /// Makes an encoder of a header, and gives what stands before the
    /// first point of the file.
    ///
    /// The header's count and bounds are cleared first. Fails exactly when
    /// the cleared header has no binary form, with the header's error.
    pub fn new(header: Header) -> (r: Result<(Encoder, Vec<u8>), Error>)
        ensures
            r is Ok <==> header@.cleared().encode_error() is None,
            r is Ok ==> r->Ok_0.0@.is_valid(),
            r is Ok ==> r->Ok_0.0@ == EncoderView::opened(header@),
            r is Ok ==> r->Ok_0.1@ == header@.cleared().preamble(),
            r is Err ==> header@.cleared().encode_error() == Some(r->Err_0),
    {
        let mut header = header;
        header.clear();
        let preamble = match header.preamble() {
            Ok(bytes) => bytes,
            Err(e) => {
                return Err(e);
            },
        };
        proof {
            use_type_invariant(&header);
        }
        Ok((Encoder { closed: false, header }, preamble))
    }

    /// Tells whether the encoder is closed.
    pub fn is_closed(&self) -> (closed: bool)
        ensures
            closed == self@.closed,
            self@.is_valid(),
    {
        proof {
            use_type_invariant(self);
        }
        self.closed
    }

    /// The header, with the count and the bounds of the points taken so
    /// far.
    pub fn header(&self) -> (header: &Header)
        ensures
            header@ == self@.header,
            self@.is_valid(),
    {
        proof {
            use_type_invariant(self);
        }
        &self.header
    }

    /// Takes a point: counts it in the header, widens the bounds to enclose
    /// it, and gives its record.
    ///
    /// Fails exactly when [`EncoderView::write_error`] names an error, with
    /// that error, and then changes nothing.
    ///
    /// The header counts the point as soon as the record is made. An owner
    /// that then fails to put the record into its stream has a header that
    /// is ahead of the stream.
    pub fn write(&mut self, point: Point) -> (r: Result<Vec<u8>, Error>)
        ensures
            final(self)@.is_valid(),
            r is Ok <==> old(self)@.write_error(point) is None,
            r is Ok ==> r->Ok_0@ == old(self)@.record(point),
            r is Ok ==> final(self)@ == old(self)@.after_write(point),
            r is Err ==> old(self)@.write_error(point) == Some(r->Err_0),
            r is Err ==> final(self)@ == old(self)@,
    {
        proof {
            use_type_invariant(&*self);
        }
        if self.closed {
            return Err(Error::Closed);
        }
        let format = self.header.point_format();
        if !point.matches(format) {
            return Err(Error::PointAttributes(format, point));
        }
        if self.header.number_of_points() == u64::MAX {
            return Err(Error::TooManyPoints);
        }
        let record = match point.encode(format.is_extended) {
            Ok(bytes) => bytes,
            Err(e) => {
                return Err(e);
            },
        };
        proof {
            lemma_with_point_keeps_config(self.header@, point);
            use_type_invariant(&self.header);
        }
        self.header.add_point(&point);
        Ok(record)
    }

    /// Gives what closes the file: first the extended records, which go
    /// after the last point, and second the header, with the count and the
    /// bounds of the points taken, which goes at the start of the stream.
    /// The encoder stays open and unchanged.
    ///
    /// Fails exactly when [`EncoderView::close_error`] names an error, with
    /// that error: [`Error::Closed`] where the encoder is closed, and
    /// otherwise the header's error where the header has no binary form.
    pub fn finish(&self) -> (r: Result<(Vec<u8>, Vec<u8>), Error>)
        ensures
            self@.is_valid(),
            r is Ok <==> self@.close_error() is None,
            r is Ok ==> r->Ok_0.0@ == self@.header.trailer(),
            r is Ok ==> r->Ok_0.1@ == self@.header.encoding(),
            r is Err ==> self@.close_error() == Some(r->Err_0),
    {
        proof {
            use_type_invariant(self);
        }
        if self.closed {
            return Err(Error::Closed);
        }
        match self.header.encode() {
            Ok(header) => Ok((self.header.trailer(), header)),
            Err(e) => Err(e),
        }
    }

    /// Marks the encoder closed, for an owner that has put into its stream
    /// what [`Encoder::finish`] gave. A closed encoder takes no point and
    /// cannot be finished or closed again.
    ///
    /// Fails exactly when the encoder is closed already, with
    /// [`Error::Closed`], and then changes nothing.
    pub fn close(&mut self) -> (r: Result<(), Error>)
        ensures
            final(self)@.is_valid(),
            r is Ok <==> !old(self)@.closed,
            r is Ok ==> final(self)@ == old(self)@.after_close(),
            r is Err ==> r->Err_0 == Error::Closed,
            r is Err ==> final(self)@ == old(self)@,
    {
        proof {
            use_type_invariant(&*self);
        }
        if self.closed {
            return Err(Error::Closed);
        }
        self.closed = true;
        Ok(())
    }
}

} // verus!
