//! Flight status alert and special position identification bits (2.2.3.2.3.2).

use vstd::prelude::*;
use vstd::string::*;

use crate::decoders::helpers::strings::{decimal_digits, ends_with, push_decimal, starts_with};

verus! {

/// 000 : no alert, no SPI, aircraft is airborne
/// 001 : no alert, no SPI, aircraft is on-ground
/// 010 : alert, no SPI, aircraft is airborne
/// 011 : alert, no SPI, aircraft is on-ground
/// 100 : alert, SPI, aircraft is airborne or on-ground
/// 101 : no alert, SPI, aircraft is airborne or on-ground
/// 110 : reserved
/// 111 : not assigned
#[derive(Debug, Clone, Copy, PartialEq, Eq, Structural, PartialOrd)]
pub enum FlightStatusAlertBit {
    NoAlertNoSPIAirborne,
    NoAlertNoSPIOnGround,
    AlertNoSPIAirborne,
    AlertNoSPIOnGround,
    AlertSPIAirborneOrOnGround,
    NoAlertSPIAirborneOrOnGround,
    Reserved,
    NotAssigned,
}

impl FlightStatusAlertBit {
    /// The status a number stands for, if any.
    pub open spec fn from_wire_value(value: u8) -> Option<FlightStatusAlertBit> {
        if value == 0 {
            Some(FlightStatusAlertBit::NoAlertNoSPIAirborne)
        } else if value == 1 {
            Some(FlightStatusAlertBit::NoAlertNoSPIOnGround)
        } else if value == 2 {
            Some(FlightStatusAlertBit::AlertNoSPIAirborne)
        } else if value == 3 {
            Some(FlightStatusAlertBit::AlertNoSPIOnGround)
        } else if value == 4 {
            Some(FlightStatusAlertBit::AlertSPIAirborneOrOnGround)
        } else if value == 5 {
            Some(FlightStatusAlertBit::NoAlertSPIAirborneOrOnGround)
        } else if value == 6 {
            Some(FlightStatusAlertBit::Reserved)
        } else if value == 7 {
            Some(FlightStatusAlertBit::NotAssigned)
        } else {
            None
        }
    }

    /// The human readable text of a status.
    pub open spec fn display_text(self) -> Seq<char> {
        match self {
            FlightStatusAlertBit::NoAlertNoSPIAirborne => "No alert, no SPI, aircraft is airborne"@,
            FlightStatusAlertBit::NoAlertNoSPIOnGround => "No alert, no SPI, aircraft is on-ground"@,
            FlightStatusAlertBit::AlertNoSPIAirborne => "Alert, no SPI, aircraft is airborne"@,
            FlightStatusAlertBit::AlertNoSPIOnGround => "Alert, no SPI, aircraft is on-ground"@,
            FlightStatusAlertBit::AlertSPIAirborneOrOnGround => "Alert, SPI, aircraft is airborne or on-ground"@,
            FlightStatusAlertBit::NoAlertSPIAirborneOrOnGround => "No alert, SPI, aircraft is airborne or on-ground"@,
            FlightStatusAlertBit::Reserved => "Reserved"@,
            FlightStatusAlertBit::NotAssigned => "Not assigned"@,
        }
    }

    /// The human readable text of this status.
    pub fn to_string(&self) -> (res: String)
        ensures
            res@ == self.display_text(),
    {
        match self {
            FlightStatusAlertBit::NoAlertNoSPIAirborne => String::from_str("No alert, no SPI, aircraft is airborne"),
            FlightStatusAlertBit::NoAlertNoSPIOnGround => String::from_str("No alert, no SPI, aircraft is on-ground"),
            FlightStatusAlertBit::AlertNoSPIAirborne => String::from_str("Alert, no SPI, aircraft is airborne"),
            FlightStatusAlertBit::AlertNoSPIOnGround => String::from_str("Alert, no SPI, aircraft is on-ground"),
            FlightStatusAlertBit::AlertSPIAirborneOrOnGround => String::from_str("Alert, SPI, aircraft is airborne or on-ground"),
            FlightStatusAlertBit::NoAlertSPIAirborneOrOnGround => String::from_str("No alert, SPI, aircraft is airborne or on-ground"),
            FlightStatusAlertBit::Reserved => String::from_str("Reserved"),
            FlightStatusAlertBit::NotAssigned => String::from_str("Not assigned"),
        }
    }
}

impl TryFrom<u8> for FlightStatusAlertBit {
    type Error = String;

    fn try_from(flight_status_alert_bit: u8) -> (res: Result<Self, Self::Error>)
        ensures
            match FlightStatusAlertBit::from_wire_value(flight_status_alert_bit) {
                Some(value) => res == Ok::<FlightStatusAlertBit, String>(value),
                None => res matches Err(message) && message@ == "FlightStatusAlertBit should be a value between 0 and 7, inclusive. Found: "@ + decimal_digits(flight_status_alert_bit as nat),
            },
    {
        match flight_status_alert_bit {
            0 => Ok(FlightStatusAlertBit::NoAlertNoSPIAirborne),
            1 => Ok(FlightStatusAlertBit::NoAlertNoSPIOnGround),
            2 => Ok(FlightStatusAlertBit::AlertNoSPIAirborne),
            3 => Ok(FlightStatusAlertBit::AlertNoSPIOnGround),
            4 => Ok(FlightStatusAlertBit::AlertSPIAirborneOrOnGround),
            5 => Ok(FlightStatusAlertBit::NoAlertSPIAirborneOrOnGround),
            6 => Ok(FlightStatusAlertBit::Reserved),
            7 => Ok(FlightStatusAlertBit::NotAssigned),
            _ => {
                let mut message = String::from_str("FlightStatusAlertBit should be a value between 0 and 7, inclusive. Found: ");
                push_decimal(&mut message, flight_status_alert_bit as u64);
                Err(message)
            },
        }
    }
}

impl vstd::std_specs::convert::TryFromSpecImpl<u8> for FlightStatusAlertBit {
    /// The error for a refused a number is a message, which no spec value can
    /// carry; `try_from` states its exact result itself.
    open spec fn obeys_try_from_spec() -> bool {
        false
    }

    open spec fn try_from_spec(value: u8) -> Result<Self, String> {
        arbitrary()
    }
}

/// A flight status number names its alert and SPI state: 0 to 3 carry no SPI,
/// with the alert set from 2 on and the aircraft on the ground for odd numbers;
/// 4 and 5 carry SPI, with and without alert; 6 is reserved, 7 not assigned;
/// any larger number is refused.
pub proof fn lemma_flight_status_number_named(n: u8)
    ensures
        n <= 3 ==> (FlightStatusAlertBit::from_wire_value(n) matches Some(f) && starts_with(
            f.display_text(),
            if n >= 2 {
                "Alert, no SPI"@
            } else {
                "No alert, no SPI"@
            },
        ) && ends_with(
            f.display_text(),
            if n % 2 == 1 {
                "on-ground"@
            } else {
                "airborne"@
            },
        )),
        n == 4 ==> (FlightStatusAlertBit::from_wire_value(n) matches Some(f) && starts_with(
            f.display_text(),
            "Alert, SPI"@,
        )),
        n == 5 ==> (FlightStatusAlertBit::from_wire_value(n) matches Some(f) && starts_with(
            f.display_text(),
            "No alert, SPI"@,
        )),
        n == 6 ==> (FlightStatusAlertBit::from_wire_value(n) matches Some(f) && f.display_text()
            == "Reserved"@),
        n == 7 ==> (FlightStatusAlertBit::from_wire_value(n) matches Some(f) && f.display_text()
            == "Not assigned"@),
        n > 7 ==> FlightStatusAlertBit::from_wire_value(n) is None,
{
    reveal_strlit("No alert, no SPI, aircraft is airborne");
    assert("No alert, no SPI, aircraft is airborne"@ =~= seq!['N', 'o', ' ', 'a', 'l', 'e', 'r', 't', ',', ' ', 'n', 'o', ' ', 'S', 'P', 'I', ',', ' ', 'a', 'i', 'r', 'c', 'r', 'a', 'f', 't', ' ', 'i', 's', ' ', 'a', 'i', 'r', 'b', 'o', 'r', 'n', 'e']);
    reveal_strlit("No alert, no SPI, aircraft is on-ground");
    assert("No alert, no SPI, aircraft is on-ground"@ =~= seq!['N', 'o', ' ', 'a', 'l', 'e', 'r', 't', ',', ' ', 'n', 'o', ' ', 'S', 'P', 'I', ',', ' ', 'a', 'i', 'r', 'c', 'r', 'a', 'f', 't', ' ', 'i', 's', ' ', 'o', 'n', '-', 'g', 'r', 'o', 'u', 'n', 'd']);
    reveal_strlit("Alert, no SPI, aircraft is airborne");
    assert("Alert, no SPI, aircraft is airborne"@ =~= seq!['A', 'l', 'e', 'r', 't', ',', ' ', 'n', 'o', ' ', 'S', 'P', 'I', ',', ' ', 'a', 'i', 'r', 'c', 'r', 'a', 'f', 't', ' ', 'i', 's', ' ', 'a', 'i', 'r', 'b', 'o', 'r', 'n', 'e']);
    reveal_strlit("Alert, no SPI, aircraft is on-ground");
    assert("Alert, no SPI, aircraft is on-ground"@ =~= seq!['A', 'l', 'e', 'r', 't', ',', ' ', 'n', 'o', ' ', 'S', 'P', 'I', ',', ' ', 'a', 'i', 'r', 'c', 'r', 'a', 'f', 't', ' ', 'i', 's', ' ', 'o', 'n', '-', 'g', 'r', 'o', 'u', 'n', 'd']);
    reveal_strlit("Alert, SPI, aircraft is airborne or on-ground");
    assert("Alert, SPI, aircraft is airborne or on-ground"@ =~= seq!['A', 'l', 'e', 'r', 't', ',', ' ', 'S', 'P', 'I', ',', ' ', 'a', 'i', 'r', 'c', 'r', 'a', 'f', 't', ' ', 'i', 's', ' ', 'a', 'i', 'r', 'b', 'o', 'r', 'n', 'e', ' ', 'o', 'r', ' ', 'o', 'n', '-', 'g', 'r', 'o', 'u', 'n', 'd']);
    reveal_strlit("No alert, SPI, aircraft is airborne or on-ground");
    assert("No alert, SPI, aircraft is airborne or on-ground"@ =~= seq!['N', 'o', ' ', 'a', 'l', 'e', 'r', 't', ',', ' ', 'S', 'P', 'I', ',', ' ', 'a', 'i', 'r', 'c', 'r', 'a', 'f', 't', ' ', 'i', 's', ' ', 'a', 'i', 'r', 'b', 'o', 'r', 'n', 'e', ' ', 'o', 'r', ' ', 'o', 'n', '-', 'g', 'r', 'o', 'u', 'n', 'd']);
    reveal_strlit("Reserved");
    assert("Reserved"@ =~= seq!['R', 'e', 's', 'e', 'r', 'v', 'e', 'd']);
    reveal_strlit("Not assigned");
    assert("Not assigned"@ =~= seq!['N', 'o', 't', ' ', 'a', 's', 's', 'i', 'g', 'n', 'e', 'd']);
    reveal_strlit("Alert, no SPI");
    assert("Alert, no SPI"@ =~= seq!['A', 'l', 'e', 'r', 't', ',', ' ', 'n', 'o', ' ', 'S', 'P', 'I']);
    reveal_strlit("No alert, no SPI");
    assert("No alert, no SPI"@ =~= seq!['N', 'o', ' ', 'a', 'l', 'e', 'r', 't', ',', ' ', 'n', 'o', ' ', 'S', 'P', 'I']);
    reveal_strlit("on-ground");
    assert("on-ground"@ =~= seq!['o', 'n', '-', 'g', 'r', 'o', 'u', 'n', 'd']);
    reveal_strlit("airborne");
    assert("airborne"@ =~= seq!['a', 'i', 'r', 'b', 'o', 'r', 'n', 'e']);
    reveal_strlit("Alert, SPI");
    assert("Alert, SPI"@ =~= seq!['A', 'l', 'e', 'r', 't', ',', ' ', 'S', 'P', 'I']);
    reveal_strlit("No alert, SPI");
    assert("No alert, SPI"@ =~= seq!['N', 'o', ' ', 'a', 'l', 'e', 'r', 't', ',', ' ', 'S', 'P', 'I']);
    if n <= 5 {
        let t = FlightStatusAlertBit::from_wire_value(n).unwrap().display_text();
        if n <= 3 {
            let first = if n >= 2 {
                "Alert, no SPI"@
            } else {
                "No alert, no SPI"@
            };
            let last = if n % 2 == 1 {
                "on-ground"@
            } else {
                "airborne"@
            };
            assert(t.subrange(0, first.len() as int) =~= first);
            assert(t.subrange(t.len() - last.len(), t.len() as int) =~= last);
        } else {
            let first = if n == 4 {
                "Alert, SPI"@
            } else {
                "No alert, SPI"@
            };
            assert(t.subrange(0, first.len() as int) =~= first);
        }
    }
}

} // verus!
