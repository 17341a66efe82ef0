//! Altitude of an aircraft in feet (`alt_baro`, `alt_geom` and the selected
//! altitudes in aircraft.json); the text form stands for an aircraft on the
//! ground.

use vstd::prelude::*;
use vstd::string::*;

use crate::decoders::helpers::strings::{decimal_digits, push_decimal};

verus! {

#[derive(Debug, Clone, PartialEq, PartialOrd)]
pub enum Altitude {
    U16(u16),
    U32(u32),
    String(String),
}

impl Altitude {
    /// The human readable text of an altitude: the feet followed by ` ft`, or
    /// `On Ground` for the text form.
    pub open spec fn display_text(self) -> Seq<char> {
        match self {
            Altitude::U16(altitude) => decimal_digits(altitude as nat) + " ft"@,
            Altitude::U32(altitude) => decimal_digits(altitude as nat) + " ft"@,
            Altitude::String(_) => "On Ground"@,
        }
    }

    /// The human readable text of this altitude.
    pub fn to_string(&self) -> (res: String)
        ensures
            res@ == self.display_text(),
    {
        match self {
            Altitude::U16(altitude) => feet_text(*altitude as u64),
            Altitude::U32(altitude) => feet_text(*altitude as u64),
            Altitude::String(_) => String::from_str("On Ground"),
        }
    }
}

fn feet_text(feet: u64) -> (res: String)
    ensures
        res@ == decimal_digits(feet as nat) + " ft"@,
{
    let mut res = String::new();
    push_decimal(&mut res, feet);
    res.append(" ft");
    assert(Seq::<char>::empty() + decimal_digits(feet as nat) + " ft"@ =~= decimal_digits(
        feet as nat,
    ) + " ft"@);
    res
}

impl Default for Altitude {
    fn default() -> (res: Self)
        ensures
            res == Altitude::U16(0),
    {
        Altitude::U16(0)
    }
}

impl From<u16> for Altitude {
    fn from(altitude: u16) -> (res: Self)
        ensures
            res == Altitude::U16(altitude),
    {
        Altitude::U16(altitude)
    }
}

impl vstd::std_specs::convert::FromSpecImpl<u16> for Altitude {
    open spec fn obeys_from_spec() -> bool {
        true
    }

    open spec fn from_spec(altitude: u16) -> Self {
        Altitude::U16(altitude)
    }
}

impl From<u32> for Altitude {
    fn from(altitude: u32) -> (res: Self)
        ensures
            res == Altitude::U32(altitude),
    {
        Altitude::U32(altitude)
    }
}

impl vstd::std_specs::convert::FromSpecImpl<u32> for Altitude {
    open spec fn obeys_from_spec() -> bool {
        true
    }

    open spec fn from_spec(altitude: u32) -> Self {
        Altitude::U32(altitude)
    }
}

impl<'a> From<&'a str> for Altitude {
    fn from(altitude: &'a str) -> (res: Self)
        ensures
            res matches Altitude::String(text) && text@ == altitude@,
    {
        Altitude::String(altitude.to_string())
    }
}

impl<'a> vstd::std_specs::convert::FromSpecImpl<&'a str> for Altitude {
    /// The result holds a new `String`, which no spec value can name; `from`
    /// states its text itself.
    open spec fn obeys_from_spec() -> bool {
        false
    }

    open spec fn from_spec(altitude: &'a str) -> Self {
        arbitrary()
    }
}

} // verus!
