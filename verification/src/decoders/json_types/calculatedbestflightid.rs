//! The aircraft callsign, flight name or tail number (`flight` in
//! aircraft.json).

use vstd::prelude::*;
use vstd::string::*;

verus! {

#[derive(Debug, Clone, PartialEq, PartialOrd)]
pub struct CalculatedBestFlightID {
    flight_id: String,
}

impl CalculatedBestFlightID {
    /// The flight identifier's text.
    pub closed spec fn text(self) -> Seq<char> {
        self.flight_id@
    }

    /// The human readable text of this identifier: the identifier itself.
    pub fn to_string(&self) -> (res: String)
        ensures
            res@ == self.text(),
    {
        self.flight_id.clone()
    }
}

impl Default for CalculatedBestFlightID {
    fn default() -> (res: Self)
        ensures
            res.text() == Seq::<char>::empty(),
    {
        Self { flight_id: String::new() }
    }
}

impl From<String> for CalculatedBestFlightID {
    fn from(flight_id: String) -> (res: Self)
        ensures
            res.text() == flight_id@,
    {
        Self { flight_id }
    }
}

impl vstd::std_specs::convert::FromSpecImpl<String> for CalculatedBestFlightID {
    closed spec fn obeys_from_spec() -> bool {
        true
    }

    closed spec fn from_spec(flight_id: String) -> Self {
        Self { flight_id }
    }
}

} // verus!
