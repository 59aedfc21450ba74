use vstd::prelude::*;

use crate::error::ConfigError;

verus! {

/// One letter of the alphabet, stored as an index in [0, 25] with the fixed
/// bijection 0 <-> 'A', ..., 25 <-> 'Z'.
///
/// Every other component operates on `Letter` indexes, never on raw bytes, so
/// that the alphabet domain stays closed: a validly constructed `Letter` can
/// never make a table lookup fail.
#[derive(Clone, Copy, Debug, PartialEq, Eq, Structural)]
pub struct Letter {
    pub byte: u8,
}

impl Letter {
    /// The index is in range; every constructor establishes this and no
    /// operation breaks it.
    pub open spec fn wf(self) -> bool {
        self.byte < 26
    }

    /// Builds a `Letter` from an alphabet index, rejecting anything above 25.
    pub fn from_u8(value: u8) -> (r: Result<Letter, ConfigError>)
        ensures
            r is Ok <==> value < 26,
            r matches Ok(l) ==> l.wf() && l.byte == value,
            r matches Err(e) ==> e == ConfigError::InvalidPosition,
    {
        if value >= 26 {
            Err(ConfigError::InvalidPosition)
        } else {
            Ok(Letter { byte: value })
        }
    }

    /// Builds a `Letter` from an uppercase character, rejecting anything
    /// outside 'A'-'Z'.
    pub fn from_char(value: char) -> (r: Result<Letter, ConfigError>)
        ensures
            r is Ok <==> 65 <= value as u32 <= 90,
            r matches Ok(l) ==> l.wf() && l.byte == value as u32 - 65,
            r matches Err(e) ==> e == ConfigError::InvalidPosition,
    {
        let v = value as u32;
        if v < 65 || v > 90 {
            Err(ConfigError::InvalidPosition)
        } else {
            Ok(Letter { byte: (v - 65) as u8 })
        }
    }

    /// The uppercase character this letter prints as.
    pub fn to_char(self) -> (r: char)
        requires
            self.wf(),
        ensures
            r as u32 == self.byte + 65,
    {
        (self.byte + 65) as char
    }

    /// The alphabet index, for callers that work on raw indexes.
    pub fn index(self) -> (r: u8)
        ensures
            r == self.byte,
    {
        self.byte
    }
}

} // verus!
