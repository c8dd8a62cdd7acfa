//! A writer's life as a whole: what holds of the header and of the stream
//! after a writer was made, took a run of points, and was closed.

use crate::bounds::bounds_of;
use crate::encoder::EncoderView;
use crate::error::Error;
use crate::header::{lemma_encoding_len, lemma_with_points, HeaderView};
use crate::point::Point;
use crate::sink::written;
use crate::vlr::table_bytes;
use crate::writer::WriterView;
use vstd::prelude::*;

verus! {

/// The records of a run of points, one after the other in the order of the
/// run.
pub open spec fn records(points: Seq<Point>, extended: bool) -> Seq<u8>
    decreases points.len(),
{
    if points.len() == 0 {
        Seq::<u8>::empty()
    } else {
        records(points.drop_last(), extended) + points.last().record(extended)
    }
}

impl WriterView {
    /// The writer after it has taken a run of points, in order.
    pub open spec fn after_writes(self, points: Seq<Point>) -> WriterView
        decreases points.len(),
    {
        if points.len() == 0 {
            self
        } else {
            self.after_writes(points.drop_last()).after_write(points.last())
        }
    }
}

/// The last of two parts, or a piece of the first, cut out of the whole.
proof fn lemma_piece(front: Seq<u8>, back: Seq<u8>, from: int, to: int)
    requires
        0 <= from <= to,
    ensures
        to <= front.len() ==> (front + back).subrange(from, to) == front.subrange(from, to),
        from == front.len() && to == front.len() + back.len() ==> (front + back).subrange(from, to)
            == back,
{
    if to <= front.len() {
        assert((front + back).subrange(from, to) =~= front.subrange(from, to));
    }
    if from == front.len() && to == front.len() + back.len() {
        assert((front + back).subrange(from, to) =~= back);
    }
}

/// The records of a file are of one size. Of a run of points whose
/// attributes are those of the format, the records take as many bytes as
/// there are points times the format's record length, and the record of
/// each point stands at its index times that length.
pub proof fn lemma_records_are_fixed_size(points: Seq<Point>, format: crate::format::Format, i: int)
    requires
        forall|j: int| 0 <= j < points.len() ==> (#[trigger] points[j]).fits(format),
        0 <= i < points.len(),
    ensures
        records(points, format.is_extended).len() == points.len() * format.record_len(),
        records(points, format.is_extended).subrange(
            i * format.record_len(),
            (i + 1) * format.record_len(),
        ) == points[i].record(format.is_extended),
    decreases points.len(),
{
    let extended = format.is_extended;
    let len = format.record_len() as int;
    let front = points.drop_last();
    let n = front.len() as int;
    let record = points.last().record(extended);
    crate::point::lemma_record_len(points.last(), format);
    lemma_records_len(front, format);
    lemma_records_len(points, format);
    assert(0 <= i * len <= (i + 1) * len) by (nonlinear_arith)
        requires
            0 <= i,
            len >= 0,
    ;
    if i < n {
        lemma_records_are_fixed_size(front, format, i);
        assert((i + 1) * len <= n * len) by (nonlinear_arith)
            requires
                i + 1 <= n,
                len >= 0,
        ;
    } else {
        assert(i * len + len == (i + 1) * len) by (nonlinear_arith);
    }
    lemma_piece(records(front, extended), record, i * len, (i + 1) * len);
}

proof fn lemma_records_len(points: Seq<Point>, format: crate::format::Format)
    requires
        forall|j: int| 0 <= j < points.len() ==> (#[trigger] points[j]).fits(format),
    ensures
        records(points, format.is_extended).len() == points.len() * format.record_len(),
    decreases points.len(),
{
    let len = format.record_len() as int;
    if points.len() > 0 {
        let front = points.drop_last();
        let n = front.len() as int;
        lemma_records_len(front, format);
        crate::point::lemma_record_len(points.last(), format);
        assert(n * len + len == (n + 1) * len) by (nonlinear_arith);
    } else {
        assert(0 * len == 0) by (nonlinear_arith);
    }
}

/// Bytes written at the end of a stream are appended to it.
pub proof fn lemma_written_at_end(stream: Seq<u8>, bytes: Seq<u8>)
    ensures
        written(stream, stream.len(), bytes) == stream + bytes,
{
    assert(written(stream, stream.len(), bytes) =~= stream + bytes);
}

/// Bytes written at the start of a stream replace as many bytes as they
/// are, and leave the rest.
pub proof fn lemma_written_at_start(head: Seq<u8>, rest: Seq<u8>, bytes: Seq<u8>)
    requires
        bytes.len() == head.len(),
    ensures
        written(head + rest, 0, bytes) == bytes + rest,
{
    assert(written(head + rest, 0, bytes) =~= bytes + rest);
}

/// Whether a point is taken depends on nothing but the writer being open,
/// the point's attributes and the point's fields. Of an open writer and a
/// point whose fields fit the record layout: the point is taken if and only
/// if its optional attributes are exactly those of the point format, and is
/// turned down with [`Error::PointAttributes`] otherwise. The one limit of
/// the machine is the counter of points, which has 64 bits and is not at
/// its last value.
pub proof fn lemma_attributes_decide(encoder: EncoderView, point: Point)
    requires
        !encoder.closed,
        encoder.header.number_of_points < u64::MAX,
        point.field_error(encoder.header.point_format.is_extended) is None,
    ensures
        encoder.write_error(point) is None <==> point.fits(encoder.header.point_format),
        !point.fits(encoder.header.point_format) ==> encoder.write_error(point) == Some(
            Error::PointAttributes(encoder.header.point_format, point),
        ),
{
}

/// An open writer can be closed if and only if its header can report the
/// points that were taken, and fails with [`Error::TooManyPoints`]
/// otherwise. Taking points never makes closing fail in another way.
pub proof fn lemma_closing_needs_room(encoder: EncoderView)
    requires
        encoder.is_valid(),
        !encoder.closed,
    ensures
        encoder.close_error() is None <==> encoder.header.number_of_points
            <= encoder.header.capacity(),
        encoder.close_error() is Some ==> encoder.close_error() == Some(Error::TooManyPoints),
{
}

/// A closed writer stays closed: after a writer was closed, it can
/// neither be closed again nor take a point, and says so with
/// [`Error::Closed`]. A writer that could not be closed is as it was, and
/// open: that is what closing states of its failure.
pub proof fn lemma_closed_is_final(encoder: EncoderView, point: Point)
    ensures
        encoder.after_close().closed,
        encoder.after_close().close_error() == Some(Error::Closed),
        encoder.after_close().write_error(point) == Some(Error::Closed),
        encoder.closed ==> encoder.close_error() == Some(Error::Closed) && encoder.write_error(
            point,
        ) == Some(Error::Closed),
{
}

/// After a writer has taken a run of points, its header counts them and
/// its bounds are the bounds of their positions; the header that closing
/// writes is that header.
pub proof fn lemma_header_follows_points(
    contents: Seq<u8>,
    position: nat,
    header: HeaderView,
    points: Seq<Point>,
)
    ensures
        ({
            let writer = WriterView::opened(contents, position, header).after_writes(points);
            &&& writer.encoder.header == header.cleared().with_points(points)
            &&& writer.encoder.header.number_of_points == points.len()
            &&& writer.encoder.header.bounds == bounds_of(
                points.map_values(|p: Point| p.position()),
            )
            &&& writer.after_close().encoder.header == writer.encoder.header
        }),
    decreases points.len(),
{
    if points.len() > 0 {
        lemma_header_follows_points(contents, position, header, points.drop_last());
    }
    lemma_with_points(header.cleared(), points);
    assert(header.cleared().cleared() == header.cleared());
}

/// The stream of a writer that was made at the start of an empty stream
/// and has taken a run of points: what stands before the first point, with
/// a header that counts no point, and then the records of the points in the
/// order in which they were written.
pub proof fn lemma_stream_while_open(header: HeaderView, points: Seq<Point>)
    ensures
        ({
            let writer = WriterView::opened(Seq::<u8>::empty(), 0, header).after_writes(points);
            &&& writer.contents == header.cleared().preamble() + records(
                points,
                header.point_format.is_extended,
            )
            &&& writer.position == writer.contents.len()
            &&& writer.encoder.header.point_format == header.point_format
            &&& !writer.encoder.closed
        }),
    decreases points.len(),
{
    let extended = header.point_format.is_extended;
    let start = WriterView::opened(Seq::<u8>::empty(), 0, header);
    if points.len() == 0 {
        lemma_written_at_end(Seq::<u8>::empty(), header.cleared().preamble());
        assert(start.contents =~= header.cleared().preamble() + records(points, extended));
    } else {
        lemma_stream_while_open(header, points.drop_last());
        let before = start.after_writes(points.drop_last());
        let record = points.last().record(extended);
        lemma_written_at_end(before.contents, record);
        assert(before.contents + record =~= header.cleared().preamble() + records(
            points,
            extended,
        ));
    }
}

/// Closing a stream that holds a header and three more parts appends the
/// trailer and replaces the header by one of the same size.
proof fn lemma_closed_stream(
    first: Seq<u8>,
    last: Seq<u8>,
    table: Seq<u8>,
    padding: Seq<u8>,
    points: Seq<u8>,
    trailer: Seq<u8>,
)
    requires
        first.len() == last.len(),
    ensures
        written(
            written(
                first + table + padding + points,
                (first + table + padding + points).len(),
                trailer,
            ),
            0,
            last,
        ) == last + table + padding + points + trailer,
{
    let contents = first + table + padding + points;
    let rest = table + padding + points + trailer;
    lemma_written_at_end(contents, trailer);
    assert(contents + trailer =~= first + rest);
    lemma_written_at_start(first, rest, last);
    assert(last + rest =~= last + table + padding + points + trailer);
}

/// The layout of a file. The stream of a writer that was made at the start
/// of an empty stream, has taken a run of points and was closed holds, in
/// this order: the header, with the count and the bounds of the points; the
/// records in list order; the padding; the records of the points, in the
/// order in which they were written; and the extended records in list
/// order.
pub proof fn lemma_stream_layout(header: HeaderView, points: Seq<Point>)
    ensures
        WriterView::opened(Seq::<u8>::empty(), 0, header).after_writes(points).after_close().contents
            == header.cleared().with_points(points).encoding() + table_bytes(header.vlrs, false)
            + header.vlr_padding + records(points, header.point_format.is_extended) + table_bytes(
            header.evlrs,
            true,
        ),
{
    let writer = WriterView::opened(Seq::<u8>::empty(), 0, header).after_writes(points);
    let last = header.cleared().with_points(points);
    lemma_stream_while_open(header, points);
    lemma_header_follows_points(Seq::<u8>::empty(), 0, header, points);
    lemma_with_points(header.cleared(), points);
    lemma_encoding_len(header.cleared());
    lemma_encoding_len(last);
    lemma_closed_stream(
        header.cleared().encoding(),
        last.encoding(),
        table_bytes(header.vlrs, false),
        header.vlr_padding,
        records(points, header.point_format.is_extended),
        table_bytes(header.evlrs, true),
    );
}

} // verus!
