//! Rate of change of an altitude in feet per minute (`baro_rate` and
//! `geom_rate` in aircraft.json).

use vstd::prelude::*;
use vstd::string::*;

use crate::decoders::helpers::strings::{push_signed_decimal, signed_decimal};

verus! {

#[derive(Debug, Clone, Copy, PartialEq, Eq, Structural, PartialOrd)]
pub struct BaroRate {
    baro_rate: i32,
}

impl BaroRate {
    /// The rate in feet per minute.
    pub closed spec fn feet_per_minute(self) -> i32 {
        self.baro_rate
    }

    /// The human readable text of a rate: the feet per minute followed by
    /// ` ft/min`.
    pub open spec fn display_text(self) -> Seq<char> {
        signed_decimal(self.feet_per_minute() as int) + " ft/min"@
    }

    /// The rate in feet per minute, the number this rate is serialized as.
    pub fn serialize(&self) -> (res: i32)
        ensures
            res == self.feet_per_minute(),
    {
        self.baro_rate
    }

    /// The human readable text of this rate.
    pub fn to_string(&self) -> (res: String)
        ensures
            res@ == self.display_text(),
    {
        let mut res = String::new();
        push_signed_decimal(&mut res, self.baro_rate as i64);
        res.append(" ft/min");
        assert(res@ =~= self.display_text());
        res
    }
}

impl Default for BaroRate {
    fn default() -> (res: Self)
        ensures
            res.feet_per_minute() == 0,
    {
        Self { baro_rate: 0 }
    }
}

impl From<i16> for BaroRate {
    fn from(baro_rate: i16) -> (res: Self)
        ensures
            res.feet_per_minute() == baro_rate as i32,
    {
        Self { baro_rate: baro_rate as i32 }
    }
}

impl From<i32> for BaroRate {
    fn from(baro_rate: i32) -> (res: Self)
        ensures
            res.feet_per_minute() == baro_rate,
    {
        Self { baro_rate }
    }
}

impl vstd::std_specs::convert::FromSpecImpl<i16> for BaroRate {
    closed spec fn obeys_from_spec() -> bool {
        true
    }

    closed spec fn from_spec(baro_rate: i16) -> Self {
        Self { baro_rate: baro_rate as i32 }
    }
}

impl vstd::std_specs::convert::FromSpecImpl<i32> for BaroRate {
    closed spec fn obeys_from_spec() -> bool {
        true
    }

    closed spec fn from_spec(baro_rate: i32) -> Self {
        Self { baro_rate }
    }
}

} // verus!
