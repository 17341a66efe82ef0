//! Geometric vertical accuracy (`gva` in aircraft.json).

use vstd::prelude::*;
use vstd::string::*;

verus! {

#[derive(Debug, Clone, Copy, PartialEq, Eq, Structural, PartialOrd)]
pub enum GeometricVerticalAccuracy {
    UnknownOrGreaterThan150m,
    LessThanEqual150m,
    LessThanEqual45m,
    LessThanEqual10m,
}

impl GeometricVerticalAccuracy {
    /// The accuracy a number stands for.
    pub open spec fn from_wire_value(value: u8) -> GeometricVerticalAccuracy {
        if value == 1 {
            GeometricVerticalAccuracy::LessThanEqual150m
        } else if value == 2 {
            GeometricVerticalAccuracy::LessThanEqual45m
        } else if value == 3 {
            GeometricVerticalAccuracy::LessThanEqual10m
        } else {
            GeometricVerticalAccuracy::UnknownOrGreaterThan150m
        }
    }

    /// The human readable text of a accuracy.
    pub open spec fn display_text(self) -> Seq<char> {
        match self {
            GeometricVerticalAccuracy::UnknownOrGreaterThan150m => "Unknown or greater than 150m"@,
            GeometricVerticalAccuracy::LessThanEqual150m => "Less than or equal to 150m"@,
            GeometricVerticalAccuracy::LessThanEqual45m => "Less than or equal to 45m"@,
            GeometricVerticalAccuracy::LessThanEqual10m => "Less than or equal to 10m"@,
        }
    }

    /// The human readable text of this accuracy.
    pub fn to_string(&self) -> (res: String)
        ensures
            res@ == self.display_text(),
    {
        match self {
            GeometricVerticalAccuracy::UnknownOrGreaterThan150m => String::from_str("Unknown or greater than 150m"),
            GeometricVerticalAccuracy::LessThanEqual150m => String::from_str("Less than or equal to 150m"),
            GeometricVerticalAccuracy::LessThanEqual45m => String::from_str("Less than or equal to 45m"),
            GeometricVerticalAccuracy::LessThanEqual10m => String::from_str("Less than or equal to 10m"),
        }
    }
}

impl From<u8> for GeometricVerticalAccuracy {
    fn from(value: u8) -> (res: Self)
        ensures
            res == GeometricVerticalAccuracy::from_wire_value(value),
    {
        match value {
            1 => GeometricVerticalAccuracy::LessThanEqual150m,
            2 => GeometricVerticalAccuracy::LessThanEqual45m,
            3 => GeometricVerticalAccuracy::LessThanEqual10m,
            _ => GeometricVerticalAccuracy::UnknownOrGreaterThan150m,
        }
    }
}

impl vstd::std_specs::convert::FromSpecImpl<u8> for GeometricVerticalAccuracy {
    open spec fn obeys_from_spec() -> bool {
        true
    }

    open spec fn from_spec(value: u8) -> Self {
        GeometricVerticalAccuracy::from_wire_value(value)
    }
}

/// A GVA number names its accuracy: 1, 2 and 3 bound the vertical error by
/// 150 m, 45 m and 10 m, each tighter than the one before; any other number
/// means unknown or more than 150 m.
pub proof fn lemma_gva_number_named(n: u8)
    ensures
        n == 1 ==> GeometricVerticalAccuracy::from_wire_value(n).display_text() == "Less than or equal to 150m"@,
        n == 2 ==> GeometricVerticalAccuracy::from_wire_value(n).display_text() == "Less than or equal to 45m"@,
        n == 3 ==> GeometricVerticalAccuracy::from_wire_value(n).display_text() == "Less than or equal to 10m"@,
        (n == 0 || n > 3) ==> GeometricVerticalAccuracy::from_wire_value(n).display_text() == "Unknown or greater than 150m"@,
{
    reveal_strlit("Less than or equal to 150m");
    assert("Less than or equal to 150m"@ =~= seq!['L', 'e', 's', 's', ' ', 't', 'h', 'a', 'n', ' ', 'o', 'r', ' ', 'e', 'q', 'u', 'a', 'l', ' ', 't', 'o', ' ', '1', '5', '0', 'm']);
    reveal_strlit("Less than or equal to 45m");
    assert("Less than or equal to 45m"@ =~= seq!['L', 'e', 's', 's', ' ', 't', 'h', 'a', 'n', ' ', 'o', 'r', ' ', 'e', 'q', 'u', 'a', 'l', ' ', 't', 'o', ' ', '4', '5', 'm']);
    reveal_strlit("Less than or equal to 10m");
    assert("Less than or equal to 10m"@ =~= seq!['L', 'e', 's', 's', ' ', 't', 'h', 'a', 'n', ' ', 'o', 'r', ' ', 'e', 'q', 'u', 'a', 'l', ' ', 't', 'o', ' ', '1', '0', 'm']);
    reveal_strlit("Unknown or greater than 150m");
    assert("Unknown or greater than 150m"@ =~= seq!['U', 'n', 'k', 'n', 'o', 'w', 'n', ' ', 'o', 'r', ' ', 'g', 'r', 'e', 'a', 't', 'e', 'r', ' ', 't', 'h', 'a', 'n', ' ', '1', '5', '0', 'm']);
}

} // verus!
