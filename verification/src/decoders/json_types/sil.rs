//! Source integrity level (`sil` in aircraft.json).

use vstd::prelude::*;
use vstd::string::*;

use crate::decoders::helpers::strings::{decimal_digits, push_decimal};

verus! {

#[derive(Debug, Clone, Copy, PartialEq, Eq, Structural, PartialOrd)]
pub enum SourceIntegrityLevel {
    Level0,
    Level1,
    Level2,
    Level3,
}

impl Default for SourceIntegrityLevel {
    fn default() -> (res: Self)
        ensures
            res == SourceIntegrityLevel::Level0,
    {
        SourceIntegrityLevel::Level0
    }
}

impl SourceIntegrityLevel {
    /// The number a level is serialized as.
    pub open spec fn wire_value(self) -> u8 {
        match self {
            SourceIntegrityLevel::Level0 => 0,
            SourceIntegrityLevel::Level1 => 1,
            SourceIntegrityLevel::Level2 => 2,
            SourceIntegrityLevel::Level3 => 3,
        }
    }

    /// The level a number stands for, if any.
    pub open spec fn from_wire_value(value: u8) -> Option<SourceIntegrityLevel> {
        if value == 0 {
            Some(SourceIntegrityLevel::Level0)
        } else if value == 1 {
            Some(SourceIntegrityLevel::Level1)
        } else if value == 2 {
            Some(SourceIntegrityLevel::Level2)
        } else if value == 3 {
            Some(SourceIntegrityLevel::Level3)
        } else {
            None
        }
    }

    /// The human readable text of a level.
    pub open spec fn display_text(self) -> Seq<char> {
        match self {
            SourceIntegrityLevel::Level0 => "SIL Level 0"@,
            SourceIntegrityLevel::Level1 => "SIL Level 1"@,
            SourceIntegrityLevel::Level2 => "SIL Level 2"@,
            SourceIntegrityLevel::Level3 => "SIL Level 3"@,
        }
    }

    /// The number this level is serialized as.
    pub fn serialize(&self) -> (res: u8)
        ensures
            res == self.wire_value(),
    {
        match self {
            SourceIntegrityLevel::Level0 => 0,
            SourceIntegrityLevel::Level1 => 1,
            SourceIntegrityLevel::Level2 => 2,
            SourceIntegrityLevel::Level3 => 3,
        }
    }

    /// The human readable text of this level.
    pub fn to_string(&self) -> (res: String)
        ensures
            res@ == self.display_text(),
    {
        match self {
            SourceIntegrityLevel::Level0 => String::from_str("SIL Level 0"),
            SourceIntegrityLevel::Level1 => String::from_str("SIL Level 1"),
            SourceIntegrityLevel::Level2 => String::from_str("SIL Level 2"),
            SourceIntegrityLevel::Level3 => String::from_str("SIL Level 3"),
        }
    }
}

impl TryFrom<u8> for SourceIntegrityLevel {
    type Error = String;

    fn try_from(level: u8) -> (res: Result<Self, Self::Error>)
        ensures
            match SourceIntegrityLevel::from_wire_value(level) {
                Some(value) => res == Ok::<SourceIntegrityLevel, String>(value),
                None => res matches Err(message) && message@ == "SIL should be a value between 0 and 3, inclusive. Found "@ + decimal_digits(level as nat),
            },
    {
        match level {
            0 => Ok(SourceIntegrityLevel::Level0),
            1 => Ok(SourceIntegrityLevel::Level1),
            2 => Ok(SourceIntegrityLevel::Level2),
            3 => Ok(SourceIntegrityLevel::Level3),
            _ => {
                let mut message = String::from_str("SIL should be a value between 0 and 3, inclusive. Found ");
                push_decimal(&mut message, level as u64);
                Err(message)
            },
        }
    }
}

impl vstd::std_specs::convert::TryFromSpecImpl<u8> for SourceIntegrityLevel {
    /// The error for a refused a number is a message, which no spec value can
    /// carry; `try_from` states its exact result itself.
    open spec fn obeys_try_from_spec() -> bool {
        false
    }

    open spec fn try_from_spec(value: u8) -> Result<Self, String> {
        arbitrary()
    }
}

/// Serializing a level and reading the number back gives the level.
pub proof fn lemma_sil_round_trip(value: SourceIntegrityLevel)
    ensures
        SourceIntegrityLevel::from_wire_value(value.wire_value()) == Some(value),
{
}

/// A number read as a level is the number that level serializes as.
pub proof fn lemma_sil_number_round_trip(number: u8)
    ensures
        SourceIntegrityLevel::from_wire_value(number) matches Some(value) ==> value.wire_value() == number,
{
}

/// A SIL number names its level: reading 0 to 3 gives the level shown as
/// `SIL Level <n>`, and any larger number is refused.
pub proof fn lemma_sil_number_named(n: u8)
    ensures
        n <= 3 ==> (SourceIntegrityLevel::from_wire_value(n) matches Some(c) && c.display_text()
            == "SIL Level "@ + decimal_digits(n as nat)),
        n > 3 ==> SourceIntegrityLevel::from_wire_value(n) is None,
{
    reveal_strlit("SIL Level 0");
    assert("SIL Level 0"@ =~= seq!['S', 'I', 'L', ' ', 'L', 'e', 'v', 'e', 'l', ' ', '0']);
    reveal_strlit("SIL Level 1");
    assert("SIL Level 1"@ =~= seq!['S', 'I', 'L', ' ', 'L', 'e', 'v', 'e', 'l', ' ', '1']);
    reveal_strlit("SIL Level 2");
    assert("SIL Level 2"@ =~= seq!['S', 'I', 'L', ' ', 'L', 'e', 'v', 'e', 'l', ' ', '2']);
    reveal_strlit("SIL Level 3");
    assert("SIL Level 3"@ =~= seq!['S', 'I', 'L', ' ', 'L', 'e', 'v', 'e', 'l', ' ', '3']);
    reveal_strlit("SIL Level ");
    assert("SIL Level "@ =~= seq!['S', 'I', 'L', ' ', 'L', 'e', 'v', 'e', 'l', ' ']);
    if n <= 3 {
        assert(SourceIntegrityLevel::from_wire_value(n).unwrap().display_text() =~= "SIL Level "@
            + decimal_digits(n as nat));
    }
}

} // verus!
