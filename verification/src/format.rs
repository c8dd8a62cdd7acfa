//! Point formats: which optional attributes a point record carries.

use crate::error::Error;
use vstd::prelude::*;

verus! {

/// What the point records of a file hold beyond the fields that every record
/// has.
///
/// The eleven formats that LAS numbers from 0 to 10 are the values that
/// [`Format::new`] returns. Each of them may also carry a fixed count of
/// extra bytes at the end of every record.
#[derive(Clone, Copy, Debug, PartialEq, Eq, Structural)]
pub struct Format {
    /// Records carry the time of capture.
    pub has_gps_time: bool,
    /// Records carry a color.
    pub has_color: bool,
    /// Records use the wider layout that came with LAS 1.4.
    pub is_extended: bool,
    /// Records carry a reference to a waveform packet.
    pub has_waveform: bool,
    /// Records carry a near-infrared sample.
    pub has_nir: bool,
    /// The count of extra bytes at the end of each record.
    pub extra_bytes: u16,
}

/// The format that LAS gives the number `n`, without extra bytes.
pub open spec fn numbered(n: u8) -> Format {
    Format {
        has_gps_time: n == 1 || n >= 3,
        has_color: n == 2 || n == 3 || n == 5 || n == 7 || n == 8 || n == 10,
        is_extended: n >= 6,
        has_waveform: n == 4 || n == 5 || n == 9 || n == 10,
        has_nir: n == 8 || n == 10,
        extra_bytes: 0,
    }
}

impl Format {
    /// Whether the record layout is the one that LAS numbers `n`.
    pub open spec fn has_number(&self, n: u8) -> bool {
        n <= 10 && (Format { extra_bytes: 0, ..*self }) == numbered(n)
    }

    /// Whether the layout is one of the eleven that LAS numbers.
    pub open spec fn is_numbered(&self) -> bool {
        exists|n: u8| self.has_number(n)
    }

    /// The number that LAS gives the layout, where it has one.
    pub open spec fn number(&self) -> u8 {
        choose|n: u8| self.has_number(n)
    }

    /// The size in bytes of one point record.
    pub open spec fn record_len(&self) -> nat {
        let core: nat = if self.is_extended { 22 } else { 20 };
        let gps_time: nat = if self.has_gps_time { 8 } else { 0 };
        let color: nat = if self.has_color { 6 } else { 0 };
        let nir: nat = if self.has_nir { 2 } else { 0 };
        let waveform: nat = if self.has_waveform { 29 } else { 0 };
        core + gps_time + color + nir + waveform + self.extra_bytes as nat
    }

    /// The format with the given number and no extra bytes.
    ///
    /// Fails with [`Error::FormatNumber`] exactly when the number is above
    /// 10.
    pub fn new(n: u8) -> (r: Result<Format, Error>)
        ensures
            n <= 10 ==> r == Ok::<Format, Error>(numbered(n)),
            n > 10 ==> r == Err::<Format, Error>(Error::FormatNumber(n)),
    {
        if n > 10 {
            Err(Error::FormatNumber(n))
        } else {
            Ok(
                Format {
                    has_gps_time: n == 1 || n >= 3,
                    has_color: n == 2 || n == 3 || n == 5 || n == 7 || n == 8 || n == 10,
                    is_extended: n >= 6,
                    has_waveform: n == 4 || n == 5 || n == 9 || n == 10,
                    has_nir: n == 8 || n == 10,
                    extra_bytes: 0,
                },
            )
        }
    }

    /// The number that LAS gives the record layout, if it has one.
    pub fn to_u8(&self) -> (r: Option<u8>)
        ensures
            r is Some <==> self.is_numbered(),
            r is Some ==> self.has_number(r->0) && r->0 == self.number(),
    {
        let mut n: u8 = 0;
        while n <= 10
            invariant
                n <= 11,
                forall|m: u8| m < n ==> !self.has_number(m),
            decreases 11 - n,
        {
            let candidate = Format {
                has_gps_time: n == 1 || n >= 3,
                has_color: n == 2 || n == 3 || n == 5 || n == 7 || n == 8 || n == 10,
                is_extended: n >= 6,
                has_waveform: n == 4 || n == 5 || n == 9 || n == 10,
                has_nir: n == 8 || n == 10,
                extra_bytes: self.extra_bytes,
            };
            if candidate == *self {
                assert(self.has_number(n));
                return Some(n);
            }
            n += 1;
        }
        None
    }

    /// The size in bytes of one point record.
    pub fn len(&self) -> (r: u32)
        ensures
            r == self.record_len(),
    {
        let mut len: u32 = if self.is_extended {
            22
        } else {
            20
        };
        if self.has_gps_time {
            len += 8;
        }
        if self.has_color {
            len += 6;
        }
        if self.has_nir {
            len += 2;
        }
        if self.has_waveform {
            len += 29;
        }
        len + self.extra_bytes as u32
    }
}

impl Default for Format {
    /// Format 0: no optional attribute and no extra bytes.
    fn default() -> (format: Format)
        ensures
            format == numbered(0),
    {
        Format {
            has_gps_time: false,
            has_color: false,
            is_extended: false,
            has_waveform: false,
            has_nir: false,
            extra_bytes: 0,
        }
    }
}

/// Each number from 0 to 10 names one layout, and no layout has two numbers.
pub proof fn lemma_format_numbers(n: u8, m: u8)
    requires
        n <= 10,
    ensures
        numbered(n).has_number(n),
        numbered(n).has_number(m) ==> m == n,
{
}

} // verus!
