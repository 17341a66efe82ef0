//! Number of messages received from an aircraft (`messages` in aircraft.json).

use vstd::prelude::*;

use crate::decoders::helpers::strings::{signed_decimal, signed_decimal_string};

verus! {

#[derive(Debug, Clone, Copy, PartialEq, Eq, Structural, PartialOrd)]
pub struct ReceivedMessages {
    received_messages: i32,
}

impl ReceivedMessages {
    /// The number of messages.
    pub closed spec fn count(self) -> i32 {
        self.received_messages
    }

    /// The human readable text of a count: its decimal form.
    pub open spec fn display_text(self) -> Seq<char> {
        signed_decimal(self.count() as int)
    }

    /// The number of messages, the number this count is serialized as.
    pub fn serialize(&self) -> (res: i32)
        ensures
            res == self.count(),
    {
        self.received_messages
    }

    /// The human readable text of this count.
    pub fn to_string(&self) -> (res: String)
        ensures
            res@ == self.display_text(),
    {
        signed_decimal_string(self.received_messages as i64)
    }
}

impl Default for ReceivedMessages {
    fn default() -> (res: Self)
        ensures
            res.count() == 0,
    {
        Self { received_messages: 0 }
    }
}

impl From<i32> for ReceivedMessages {
    fn from(received_messages: i32) -> (res: Self)
        ensures
            res.count() == received_messages,
    {
        Self { received_messages }
    }
}

impl vstd::std_specs::convert::FromSpecImpl<i32> for ReceivedMessages {
    closed spec fn obeys_from_spec() -> bool {
        true
    }

    closed spec fn from_spec(received_messages: i32) -> Self {
        Self { received_messages }
    }
}

} // verus!
