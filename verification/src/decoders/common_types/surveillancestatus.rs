//! Surveillance status (SPI condition) of a Mode-S reply.

use vstd::prelude::*;
use vstd::string::*;

verus! {

/// SPI Condition
#[derive(Debug, Clone, Copy, PartialEq, Eq, Structural, PartialOrd)]
pub enum SurveillanceStatus {
    NoCondition,
    PermanentAlert,
    TemporaryAlert,
    SPICondition,
}

impl Default for SurveillanceStatus {
    fn default() -> (res: Self)
        ensures
            res == SurveillanceStatus::NoCondition,
    {
        SurveillanceStatus::NoCondition
    }
}

impl SurveillanceStatus {
    /// The status a number stands for.
    pub open spec fn from_wire_value(value: u8) -> SurveillanceStatus {
        if value == 1 {
            SurveillanceStatus::PermanentAlert
        } else if value == 2 {
            SurveillanceStatus::TemporaryAlert
        } else if value == 3 {
            SurveillanceStatus::SPICondition
        } else {
            SurveillanceStatus::NoCondition
        }
    }

    /// The human readable text of a status.
    pub open spec fn display_text(self) -> Seq<char> {
        match self {
            SurveillanceStatus::NoCondition => "No condition"@,
            SurveillanceStatus::PermanentAlert => "Permanent alert"@,
            SurveillanceStatus::TemporaryAlert => "Temporary alert"@,
            SurveillanceStatus::SPICondition => "SPI condition"@,
        }
    }

    /// The human readable text of this status.
    pub fn to_string(&self) -> (res: String)
        ensures
            res@ == self.display_text(),
    {
        match self {
            SurveillanceStatus::NoCondition => String::from_str("No condition"),
            SurveillanceStatus::PermanentAlert => String::from_str("Permanent alert"),
            SurveillanceStatus::TemporaryAlert => String::from_str("Temporary alert"),
            SurveillanceStatus::SPICondition => String::from_str("SPI condition"),
        }
    }
}

impl From<u8> for SurveillanceStatus {
    fn from(v: u8) -> (res: Self)
        ensures
            res == SurveillanceStatus::from_wire_value(v),
    {
        match v {
            1 => SurveillanceStatus::PermanentAlert,
            2 => SurveillanceStatus::TemporaryAlert,
            3 => SurveillanceStatus::SPICondition,
            _ => SurveillanceStatus::NoCondition,
        }
    }
}

impl vstd::std_specs::convert::FromSpecImpl<u8> for SurveillanceStatus {
    open spec fn obeys_from_spec() -> bool {
        true
    }

    open spec fn from_spec(v: u8) -> Self {
        SurveillanceStatus::from_wire_value(v)
    }
}

/// A surveillance status number names its condition: 1 a permanent alert, 2
/// a temporary alert, 3 the SPI condition; any other number means no
/// condition.
pub proof fn lemma_surveillance_status_number_named(n: u8)
    ensures
        n == 1 ==> SurveillanceStatus::from_wire_value(n).display_text() == "Permanent alert"@,
        n == 2 ==> SurveillanceStatus::from_wire_value(n).display_text() == "Temporary alert"@,
        n == 3 ==> SurveillanceStatus::from_wire_value(n).display_text() == "SPI condition"@,
        (n == 0 || n > 3) ==> SurveillanceStatus::from_wire_value(n).display_text() == "No condition"@,
{
    reveal_strlit("Permanent alert");
    assert("Permanent alert"@ =~= seq!['P', 'e', 'r', 'm', 'a', 'n', 'e', 'n', 't', ' ', 'a', 'l', 'e', 'r', 't']);
    reveal_strlit("Temporary alert");
    assert("Temporary alert"@ =~= seq!['T', 'e', 'm', 'p', 'o', 'r', 'a', 'r', 'y', ' ', 'a', 'l', 'e', 'r', 't']);
    reveal_strlit("SPI condition");
    assert("SPI condition"@ =~= seq!['S', 'P', 'I', ' ', 'c', 'o', 'n', 'd', 'i', 't', 'i', 'o', 'n']);
    reveal_strlit("No condition");
    assert("No condition"@ =~= seq!['N', 'o', ' ', 'c', 'o', 'n', 'd', 'i', 't', 'i', 'o', 'n']);
}

} // verus!
