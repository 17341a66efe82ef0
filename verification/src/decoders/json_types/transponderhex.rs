//! The transponder hex identifier of an aircraft (`hex` in aircraft.json),
//! kept in upper case.

use vstd::prelude::*;
use vstd::string::*;

use crate::decoders::helpers::strings::{ascii_upper_text, to_ascii_uppercase};

verus! {

#[derive(Debug, Clone, PartialEq, PartialOrd)]
pub enum TransponderHex {
    TransponderHexAsString(String),
    NoHex,
}

impl TransponderHex {
    /// The human readable text of an identifier: the identifier, or `None`
    /// when there is none.
    pub open spec fn display_text(self) -> Seq<char> {
        match self {
            TransponderHex::TransponderHexAsString(transponder_hex) => transponder_hex@,
            TransponderHex::NoHex => "None"@,
        }
    }

    /// The identifier's text, empty when there is none.
    pub open spec fn hex_text(self) -> Seq<char> {
        match self {
            TransponderHex::TransponderHexAsString(transponder_hex) => transponder_hex@,
            TransponderHex::NoHex => Seq::<char>::empty(),
        }
    }

    /// The human readable text of this identifier.
    pub fn to_string(&self) -> (res: String)
        ensures
            res@ == self.display_text(),
    {
        match self {
            Self::TransponderHexAsString(transponder_hex) => transponder_hex.clone(),
            Self::NoHex => String::from_str("None"),
        }
    }

    /// The identifier as a `String`, empty when there is none.
    pub fn get_transponder_hex_as_string(&self) -> (res: String)
        ensures
            res@ == self.hex_text(),
    {
        match self {
            Self::TransponderHexAsString(transponder_hex) => transponder_hex.clone(),
            Self::NoHex => String::new(),
        }
    }
}

impl Default for TransponderHex {
    fn default() -> (res: Self)
        ensures
            res == TransponderHex::NoHex,
    {
        Self::NoHex
    }
}

impl From<String> for TransponderHex {
    /// The identifier of a text, upper-cased.
    fn from(transponder_hex: String) -> (res: Self)
        ensures
            res matches TransponderHex::TransponderHexAsString(text) && text@ == ascii_upper_text(
                transponder_hex@,
            ),
    {
        Self::TransponderHexAsString(to_ascii_uppercase(transponder_hex.as_str()))
    }
}

impl vstd::std_specs::convert::FromSpecImpl<String> for TransponderHex {
    /// The result holds a new `String`, which no spec value can name; `from`
    /// states its text itself.
    open spec fn obeys_from_spec() -> bool {
        false
    }

    open spec fn from_spec(transponder_hex: String) -> Self {
        arbitrary()
    }
}
} // verus!
