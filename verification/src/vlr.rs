//! The auxiliary records of a file: those between the header and the
//! points, and the extended ones after the last point.

use crate::bytes::{group_le_len, le16, le64, lemma_le16_zero, put_slice, put_u16, put_u64, zeros};
use vstd::prelude::*;

verus! {

/// The size in bytes of what precedes the payload of a record that stands
/// before the points.
pub const VLR_HEADER_LEN: usize = 54;

/// The size in bytes of what precedes the payload of an extended record.
pub const EVLR_HEADER_LEN: usize = 60;

/// An auxiliary record. One type serves both kinds: where the record stands
/// in the file decides how its length is written.
#[derive(Clone, Debug, PartialEq, Eq)]
pub struct Vlr {
    /// Who defined the record, as text padded with zero bytes.
    pub user_id: [u8; 16],
    /// Which of that user's records this is.
    pub record_id: u16,
    /// What the record holds, as text padded with zero bytes.
    pub description: [u8; 32],
    /// The payload.
    pub data: Vec<u8>,
}

impl Vlr {
    /// The bytes of the record: two reserved zero bytes, the user id, the
    /// record id, the payload's length, the description, and the payload.
    /// The length takes two bytes, or eight in an extended record.
    pub open spec fn bytes(&self, extended: bool) -> Seq<u8> {
        zeros(2) + self.user_id@ + le16(self.record_id as nat) + (if extended {
            le64(self.data@.len())
        } else {
            le16(self.data@.len())
        }) + self.description@ + self.data@
    }

    /// Whether the payload's length fits the two bytes that a record before
    /// the points has for it.
    pub open spec fn is_short(&self) -> bool {
        self.data@.len() <= u16::MAX
    }

    /// The size in bytes of the record.
    pub open spec fn byte_len(&self, extended: bool) -> nat {
        (if extended {
            60nat
        } else {
            54nat
        }) + self.data@.len()
    }

    /// Tells whether the payload's length fits in two bytes.
    pub fn fits_in_vlr(&self) -> (r: bool)
        ensures
            r == self.is_short(),
    {
        self.data.len() <= 0xFFFF
    }

    /// Appends the record as one that stands before the points.
    pub(crate) fn put(&self, out: &mut Vec<u8>)
        requires
            self.is_short(),
        ensures
            final(out)@ == old(out)@ + self.bytes(false),
    {
        put_u16(out, 0);
        put_slice(out, self.user_id.as_slice());
        put_u16(out, self.record_id);
        put_u16(out, self.data.len() as u16);
        put_slice(out, self.description.as_slice());
        put_slice(out, self.data.as_slice());
        proof {
            lemma_le16_zero();
        }
        assert(final(out)@ =~= old(out)@ + self.bytes(false));
    }

    /// Appends the record as an extended one.
    pub(crate) fn put_extended(&self, out: &mut Vec<u8>)
        ensures
            final(out)@ == old(out)@ + self.bytes(true),
    {
        put_u16(out, 0);
        put_slice(out, self.user_id.as_slice());
        put_u16(out, self.record_id);
        put_u64(out, self.data.len() as u64);
        put_slice(out, self.description.as_slice());
        put_slice(out, self.data.as_slice());
        proof {
            lemma_le16_zero();
        }
        assert(final(out)@ =~= old(out)@ + self.bytes(true));
    }
}

impl Default for Vlr {
    /// The record whose fields are all zero and whose payload is empty.
    fn default() -> (vlr: Vlr)
        ensures
            vlr.user_id@ == zeros(16),
            vlr.record_id == 0,
            vlr.description@ == zeros(32),
            vlr.data@ == Seq::<u8>::empty(),
    {
        let vlr = Vlr { user_id: [0u8; 16], record_id: 0, description: [0u8; 32], data: Vec::new() };
        assert(vlr.user_id@ =~= zeros(16));
        assert(vlr.description@ =~= zeros(32));
        vlr
    }
}

/// The bytes of a list of records, one after the other in list order.
pub open spec fn table_bytes(records: Seq<Vlr>, extended: bool) -> Seq<u8>
    decreases records.len(),
{
    if records.len() == 0 {
        Seq::<u8>::empty()
    } else {
        table_bytes(records.drop_last(), extended) + records.last().bytes(extended)
    }
}

/// The size in bytes of a list of records.
pub open spec fn table_len(records: Seq<Vlr>, extended: bool) -> nat
    decreases records.len(),
{
    if records.len() == 0 {
        0
    } else {
        table_len(records.drop_last(), extended) + records.last().byte_len(extended)
    }
}

/// Whether every record of the list has a payload whose length fits in two
/// bytes.
pub open spec fn all_short(records: Seq<Vlr>) -> bool {
    forall|i: int| 0 <= i < records.len() ==> (#[trigger] records[i]).is_short()
}

/// A record is as long as its byte length says, and so is a list.
pub proof fn lemma_table_len(records: Seq<Vlr>, extended: bool)
    ensures
        table_bytes(records, extended).len() == table_len(records, extended),
    decreases records.len(),
{
    broadcast use group_le_len;

    if records.len() > 0 {
        lemma_table_len(records.drop_last(), extended);
        assert(records.last().bytes(extended).len() == records.last().byte_len(extended));
    }
}

/// Appends the records of a list, one after the other in list order.
pub(crate) fn put_table(records: &Vec<Vlr>, out: &mut Vec<u8>, extended: bool)
    requires
        !extended ==> all_short(records@),
    ensures
        final(out)@ == old(out)@ + table_bytes(records@, extended),
{
    let mut i: usize = 0;
    assert(records@.take(0) =~= Seq::<Vlr>::empty());
    assert(out@ =~= old(out)@ + table_bytes(records@.take(0), extended));
    while i < records.len()
        invariant
            i <= records.len(),
            !extended ==> all_short(records@),
            out@ == old(out)@ + table_bytes(records@.take(i as int), extended),
        decreases records.len() - i,
    {
        let ghost before = out@;
        if extended {
            records[i].put_extended(out);
        } else {
            records[i].put(out);
        }
        proof {
            let next = records@.take(i + 1);
            assert(next.drop_last() =~= records@.take(i as int));
            assert(next.last() == records@[i as int]);
            assert(out@ =~= old(out)@ + table_bytes(next, extended));
        }
        i += 1;
    }
    assert(records@.take(i as int) =~= records@);
}

/// The size in bytes of a list of records whose payloads all fit a record
/// that stands before the points.
pub(crate) fn table_size(records: &Vec<Vlr>) -> (size: u64)
    requires
        all_short(records@),
        records@.len() <= u32::MAX,
    ensures
        size == table_len(records@, false),
        size <= records@.len() * 0x1_0035,
{
    let mut i: usize = 0;
    let mut size: u64 = 0;
    assert(records@.take(0) =~= Seq::<Vlr>::empty());
    while i < records.len()
        invariant
            i <= records.len(),
            all_short(records@),
            records@.len() <= u32::MAX,
            size == table_len(records@.take(i as int), false),
            size <= i * 0x1_0035,
        decreases records.len() - i,
    {
        proof {
            let next = records@.take(i + 1);
            assert(next.drop_last() =~= records@.take(i as int));
            assert(next.last() == records@[i as int]);
            assert(records@[i as int].is_short());
        }
        size = size + 54 + records[i].data.len() as u64;
        i += 1;
    }
    assert(records@.take(i as int) =~= records@);
    size
}

} // verus!
