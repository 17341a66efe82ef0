//! ADS-B version number (`version` in aircraft.json).

use vstd::prelude::*;
use vstd::string::*;

use crate::decoders::helpers::strings::{decimal_digits, push_decimal};

verus! {

#[derive(Debug, Clone, Copy, PartialEq, Eq, Structural, PartialOrd)]
pub enum ADSBVersion {
    Version0,
    Version1,
    Version2,
    Version3,
    Version4,
    Version5,
    Version6,
    Version7,
    Unknown,
}

impl ADSBVersion {
    /// The number a version is serialized as.
    pub open spec fn wire_value(self) -> u8 {
        match self {
            ADSBVersion::Version0 => 0,
            ADSBVersion::Version1 => 1,
            ADSBVersion::Version2 => 2,
            ADSBVersion::Version3 => 3,
            ADSBVersion::Version4 => 4,
            ADSBVersion::Version5 => 5,
            ADSBVersion::Version6 => 6,
            ADSBVersion::Version7 => 7,
            ADSBVersion::Unknown => 8,
        }
    }

    /// The version a number stands for, if any.
    pub open spec fn from_wire_value(value: u8) -> Option<ADSBVersion> {
        if value == 0 {
            Some(ADSBVersion::Version0)
        } else if value == 1 {
            Some(ADSBVersion::Version1)
        } else if value == 2 {
            Some(ADSBVersion::Version2)
        } else if value == 3 {
            Some(ADSBVersion::Version3)
        } else if value == 4 {
            Some(ADSBVersion::Version4)
        } else if value == 5 {
            Some(ADSBVersion::Version5)
        } else if value == 6 {
            Some(ADSBVersion::Version6)
        } else if value == 7 {
            Some(ADSBVersion::Version7)
        } else if value == 8 {
            Some(ADSBVersion::Unknown)
        } else {
            None
        }
    }

    /// The human readable text of a version.
    pub open spec fn display_text(self) -> Seq<char> {
        match self {
            ADSBVersion::Version0 => "ADSB Version 0"@,
            ADSBVersion::Version1 => "ADSB Version 1"@,
            ADSBVersion::Version2 => "ADSB Version 2"@,
            ADSBVersion::Version3 => "ADSB Version 3"@,
            ADSBVersion::Version4 => "ADSB Version 4"@,
            ADSBVersion::Version5 => "ADSB Version 5"@,
            ADSBVersion::Version6 => "ADSB Version 6"@,
            ADSBVersion::Version7 => "ADSB Version 7"@,
            ADSBVersion::Unknown => "ADSB Version Unknown"@,
        }
    }

    /// The number this version is serialized as.
    pub fn serialize(&self) -> (res: u8)
        ensures
            res == self.wire_value(),
    {
        match self {
            ADSBVersion::Version0 => 0,
            ADSBVersion::Version1 => 1,
            ADSBVersion::Version2 => 2,
            ADSBVersion::Version3 => 3,
            ADSBVersion::Version4 => 4,
            ADSBVersion::Version5 => 5,
            ADSBVersion::Version6 => 6,
            ADSBVersion::Version7 => 7,
            ADSBVersion::Unknown => 8,
        }
    }

    /// The human readable text of this version.
    pub fn to_string(&self) -> (res: String)
        ensures
            res@ == self.display_text(),
    {
        match self {
            ADSBVersion::Version0 => String::from_str("ADSB Version 0"),
            ADSBVersion::Version1 => String::from_str("ADSB Version 1"),
            ADSBVersion::Version2 => String::from_str("ADSB Version 2"),
            ADSBVersion::Version3 => String::from_str("ADSB Version 3"),
            ADSBVersion::Version4 => String::from_str("ADSB Version 4"),
            ADSBVersion::Version5 => String::from_str("ADSB Version 5"),
            ADSBVersion::Version6 => String::from_str("ADSB Version 6"),
            ADSBVersion::Version7 => String::from_str("ADSB Version 7"),
            ADSBVersion::Unknown => String::from_str("ADSB Version Unknown"),
        }
    }
}

impl TryFrom<u8> for ADSBVersion {
    type Error = String;

    fn try_from(field: u8) -> (res: Result<Self, Self::Error>)
        ensures
            match ADSBVersion::from_wire_value(field) {
                Some(value) => res == Ok::<ADSBVersion, String>(value),
                None => res matches Err(message) && message@ == "Invalid ADSBVersion field: "@ + decimal_digits(field as nat),
            },
    {
        match field {
            0 => Ok(ADSBVersion::Version0),
            1 => Ok(ADSBVersion::Version1),
            2 => Ok(ADSBVersion::Version2),
            3 => Ok(ADSBVersion::Version3),
            4 => Ok(ADSBVersion::Version4),
            5 => Ok(ADSBVersion::Version5),
            6 => Ok(ADSBVersion::Version6),
            7 => Ok(ADSBVersion::Version7),
            8 => Ok(ADSBVersion::Unknown),
            _ => {
                let mut message = String::from_str("Invalid ADSBVersion field: ");
                push_decimal(&mut message, field as u64);
                Err(message)
            },
        }
    }
}

impl vstd::std_specs::convert::TryFromSpecImpl<u8> for ADSBVersion {
    /// The error for a refused a number is a message, which no spec value can
    /// carry; `try_from` states its exact result itself.
    open spec fn obeys_try_from_spec() -> bool {
        false
    }

    open spec fn try_from_spec(value: u8) -> Result<Self, String> {
        arbitrary()
    }
}

/// Serializing a version and reading the number back gives the version.
pub proof fn lemma_adsb_version_round_trip(value: ADSBVersion)
    ensures
        ADSBVersion::from_wire_value(value.wire_value()) == Some(value),
{
}

/// A number read as a version is the number that version serializes as.
pub proof fn lemma_adsb_version_number_round_trip(number: u8)
    ensures
        ADSBVersion::from_wire_value(number) matches Some(value) ==> value.wire_value() == number,
{
}

/// An ADS-B version number names its version: reading 0 to 7 gives the
/// version shown as `ADSB Version <n>`, 8 the unknown version, and any larger
/// number is refused.
pub proof fn lemma_adsb_version_number_named(n: u8)
    ensures
        n <= 7 ==> (ADSBVersion::from_wire_value(n) matches Some(c) && c.display_text()
            == "ADSB Version "@ + decimal_digits(n as nat)),
        n == 8 ==> (ADSBVersion::from_wire_value(n) matches Some(c) && c.display_text()
            == "ADSB Version Unknown"@),
        n > 8 ==> ADSBVersion::from_wire_value(n) is None,
{
    reveal_strlit("ADSB Version 0");
    assert("ADSB Version 0"@ =~= seq!['A', 'D', 'S', 'B', ' ', 'V', 'e', 'r', 's', 'i', 'o', 'n', ' ', '0']);
    reveal_strlit("ADSB Version 1");
    assert("ADSB Version 1"@ =~= seq!['A', 'D', 'S', 'B', ' ', 'V', 'e', 'r', 's', 'i', 'o', 'n', ' ', '1']);
    reveal_strlit("ADSB Version 2");
    assert("ADSB Version 2"@ =~= seq!['A', 'D', 'S', 'B', ' ', 'V', 'e', 'r', 's', 'i', 'o', 'n', ' ', '2']);
    reveal_strlit("ADSB Version 3");
    assert("ADSB Version 3"@ =~= seq!['A', 'D', 'S', 'B', ' ', 'V', 'e', 'r', 's', 'i', 'o', 'n', ' ', '3']);
    reveal_strlit("ADSB Version 4");
    assert("ADSB Version 4"@ =~= seq!['A', 'D', 'S', 'B', ' ', 'V', 'e', 'r', 's', 'i', 'o', 'n', ' ', '4']);
    reveal_strlit("ADSB Version 5");
    assert("ADSB Version 5"@ =~= seq!['A', 'D', 'S', 'B', ' ', 'V', 'e', 'r', 's', 'i', 'o', 'n', ' ', '5']);
    reveal_strlit("ADSB Version 6");
    assert("ADSB Version 6"@ =~= seq!['A', 'D', 'S', 'B', ' ', 'V', 'e', 'r', 's', 'i', 'o', 'n', ' ', '6']);
    reveal_strlit("ADSB Version 7");
    assert("ADSB Version 7"@ =~= seq!['A', 'D', 'S', 'B', ' ', 'V', 'e', 'r', 's', 'i', 'o', 'n', ' ', '7']);
    reveal_strlit("ADSB Version Unknown");
    assert("ADSB Version Unknown"@ =~= seq!['A', 'D', 'S', 'B', ' ', 'V', 'e', 'r', 's', 'i', 'o', 'n', ' ', 'U', 'n', 'k', 'n', 'o', 'w', 'n']);
    reveal_strlit("ADSB Version ");
    assert("ADSB Version "@ =~= seq!['A', 'D', 'S', 'B', ' ', 'V', 'e', 'r', 's', 'i', 'o', 'n', ' ']);
    if n <= 7 {
        assert(ADSBVersion::from_wire_value(n).unwrap().display_text() =~= "ADSB Version "@
            + decimal_digits(n as nat));
    }
}

} // verus!
