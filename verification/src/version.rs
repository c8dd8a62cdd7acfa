//! LAS format versions and what each of them can hold.

use vstd::prelude::*;

verus! {

/// A LAS version: a major and a minor number.
#[derive(Clone, Copy, Debug, PartialEq, Eq, Structural)]
pub struct Version {
    /// The major number; 1 in every version that exists.
    pub major: u8,
    /// The minor number.
    pub minor: u8,
}

impl Version {
    /// Whether this library can write the version: 1.0 to 1.4.
    pub open spec fn is_supported(&self) -> bool {
        self.major == 1 && self.minor <= 4
    }

    /// The size in bytes of the version's file header.
    pub open spec fn header_len(&self) -> nat {
        if self.minor <= 2 {
            227
        } else if self.minor == 3 {
            235
        } else {
            375
        }
    }

    /// Whether the version knows the point format with the given number.
    pub open spec fn knows_format(&self, number: u8) -> bool {
        self.is_supported() && (number <= 1 || (number <= 3 && self.minor >= 2) || (number <= 5
            && self.minor >= 3) || (number <= 10 && self.minor >= 4))
    }

    /// Whether files of the version can end in extended records.
    pub open spec fn has_evlrs(&self) -> bool {
        self.is_supported() && self.minor >= 4
    }

    /// Whether the version puts a two-byte signature before the first point.
    pub open spec fn has_start_signature(&self) -> bool {
        self.major == 1 && self.minor == 0
    }

    /// The version with the given numbers.
    pub fn new(major: u8, minor: u8) -> (version: Version)
        ensures
            version == (Version { major, minor }),
    {
        Version { major, minor }
    }

    /// Tells whether this library can write the version.
    pub fn supported(&self) -> (r: bool)
        ensures
            r == self.is_supported(),
    {
        self.major == 1 && self.minor <= 4
    }

    /// The size in bytes of the file header, for a version that this library
    /// can write.
    pub fn header_size(&self) -> (size: Option<u16>)
        ensures
            size is Some <==> self.is_supported(),
            size is Some ==> size->0 == self.header_len(),
    {
        if !self.supported() {
            None
        } else if self.minor <= 2 {
            Some(227)
        } else if self.minor == 3 {
            Some(235)
        } else {
            Some(375)
        }
    }

    /// Tells whether the version knows the point format with the given
    /// number.
    pub fn supports_format(&self, number: u8) -> (r: bool)
        ensures
            r == self.knows_format(number),
    {
        self.supported() && (number <= 1 || (number <= 3 && self.minor >= 2) || (number <= 5
            && self.minor >= 3) || (number <= 10 && self.minor >= 4))
    }

    /// Tells whether files of the version can end in extended records.
    pub fn supports_evlrs(&self) -> (r: bool)
        ensures
            r == self.has_evlrs(),
    {
        self.supported() && self.minor >= 4
    }

    /// Tells whether the version puts a two-byte signature before the first
    /// point.
    pub fn requires_point_data_start_signature(&self) -> (r: bool)
        ensures
            r == self.has_start_signature(),
    {
        self.major == 1 && self.minor == 0
    }
}

impl From<(u8, u8)> for Version {
    fn from(pair: (u8, u8)) -> (version: Version) {
        Version { major: pair.0, minor: pair.1 }
    }
}

impl vstd::std_specs::convert::FromSpecImpl<(u8, u8)> for Version {
    open spec fn obeys_from_spec() -> bool {
        true
    }

    open spec fn from_spec(pair: (u8, u8)) -> Version {
        Version { major: pair.0, minor: pair.1 }
    }
}

} // verus!
