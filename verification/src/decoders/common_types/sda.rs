//! System design assurance of an aircraft operation status message.

use vstd::prelude::*;
use vstd::string::*;

use crate::decoders::helpers::strings::{decimal_digits, push_decimal, starts_with};

verus! {

#[derive(Debug, Clone, Copy, PartialEq, Eq, Structural, PartialOrd)]
pub enum SystemDesignAssurance {
    UnknownOrNoSafetyEffect,
    Minor,
    Major,
    Hazardous,
}

impl Default for SystemDesignAssurance {
    fn default() -> (res: Self)
        ensures
            res == SystemDesignAssurance::UnknownOrNoSafetyEffect,
    {
        SystemDesignAssurance::UnknownOrNoSafetyEffect
    }
}

impl SystemDesignAssurance {
    /// The number an assurance level is serialized as.
    pub open spec fn wire_value(self) -> u8 {
        match self {
            SystemDesignAssurance::UnknownOrNoSafetyEffect => 0,
            SystemDesignAssurance::Minor => 1,
            SystemDesignAssurance::Major => 2,
            SystemDesignAssurance::Hazardous => 3,
        }
    }

    /// The assurance level a number stands for, if any.
    pub open spec fn from_wire_value(value: u8) -> Option<SystemDesignAssurance> {
        if value == 0 {
            Some(SystemDesignAssurance::UnknownOrNoSafetyEffect)
        } else if value == 1 {
            Some(SystemDesignAssurance::Minor)
        } else if value == 2 {
            Some(SystemDesignAssurance::Major)
        } else if value == 3 {
            Some(SystemDesignAssurance::Hazardous)
        } else {
            None
        }
    }

    /// The human readable text of an assurance level.
    pub open spec fn display_text(self) -> Seq<char> {
        match self {
            SystemDesignAssurance::UnknownOrNoSafetyEffect => "Unknown or No Safety Effect (> 1x10-3 per flight hour\n                or Unknown)"@,
            SystemDesignAssurance::Minor => "Minor (≤ 1x10-3 per flight hour)"@,
            SystemDesignAssurance::Major => "Major (≤ 1x10-5 per flight hour)"@,
            SystemDesignAssurance::Hazardous => "Hazardous (≤ 1x10 per flight hour)"@,
        }
    }

    /// The number this assurance level is serialized as.
    pub fn serialize(&self) -> (res: u8)
        ensures
            res == self.wire_value(),
    {
        match self {
            SystemDesignAssurance::UnknownOrNoSafetyEffect => 0,
            SystemDesignAssurance::Minor => 1,
            SystemDesignAssurance::Major => 2,
            SystemDesignAssurance::Hazardous => 3,
        }
    }

    /// The human readable text of this assurance level.
    pub fn to_string(&self) -> (res: String)
        ensures
            res@ == self.display_text(),
    {
        match self {
            SystemDesignAssurance::UnknownOrNoSafetyEffect => String::from_str("Unknown or No Safety Effect (> 1x10-3 per flight hour\n                or Unknown)"),
            SystemDesignAssurance::Minor => String::from_str("Minor (≤ 1x10-3 per flight hour)"),
            SystemDesignAssurance::Major => String::from_str("Major (≤ 1x10-5 per flight hour)"),
            SystemDesignAssurance::Hazardous => String::from_str("Hazardous (≤ 1x10 per flight hour)"),
        }
    }
}

impl TryFrom<u8> for SystemDesignAssurance {
    type Error = String;

    fn try_from(value: u8) -> (res: Result<Self, Self::Error>)
        ensures
            match SystemDesignAssurance::from_wire_value(value) {
                Some(value) => res == Ok::<SystemDesignAssurance, String>(value),
                None => res matches Err(message) && message@ == "Invalid SystemDesignAssurance: "@ + decimal_digits(value as nat),
            },
    {
        match value {
            0 => Ok(SystemDesignAssurance::UnknownOrNoSafetyEffect),
            1 => Ok(SystemDesignAssurance::Minor),
            2 => Ok(SystemDesignAssurance::Major),
            3 => Ok(SystemDesignAssurance::Hazardous),
            _ => {
                let mut message = String::from_str("Invalid SystemDesignAssurance: ");
                push_decimal(&mut message, value as u64);
                Err(message)
            },
        }
    }
}

impl vstd::std_specs::convert::TryFromSpecImpl<u8> for SystemDesignAssurance {
    /// The error for a refused a number is a message, which no spec value can
    /// carry; `try_from` states its exact result itself.
    open spec fn obeys_try_from_spec() -> bool {
        false
    }

    open spec fn try_from_spec(value: u8) -> Result<Self, String> {
        arbitrary()
    }
}

/// Serializing an assurance level and reading the number back gives the assurance level.
pub proof fn lemma_system_design_assurance_round_trip(value: SystemDesignAssurance)
    ensures
        SystemDesignAssurance::from_wire_value(value.wire_value()) == Some(value),
{
}

/// A number read as an assurance level is the number that assurance level serializes as.
pub proof fn lemma_system_design_assurance_number_round_trip(number: u8)
    ensures
        SystemDesignAssurance::from_wire_value(number) matches Some(value) ==> value.wire_value() == number,
{
}

/// An SDA number names its assurance level, in rising severity: 0 the
/// unknown or no safety effect level, 1 minor, 2 major, 3 hazardous; any
/// larger number is refused.
pub proof fn lemma_system_design_assurance_number_named(n: u8)
    ensures
        n <= 3 ==> (SystemDesignAssurance::from_wire_value(n) matches Some(c) && starts_with(
            c.display_text(),
            if n == 0 {
                "Unknown"@
            } else if n == 1 {
                "Minor"@
            } else if n == 2 {
                "Major"@
            } else {
                "Hazardous"@
            },
        )),
        n > 3 ==> SystemDesignAssurance::from_wire_value(n) is None,
{
    reveal_strlit("Unknown or No Safety Effect (> 1x10-3 per flight hour\n                or Unknown)");
    assert("Unknown or No Safety Effect (> 1x10-3 per flight hour\n                or Unknown)"@ =~= seq!['U', 'n', 'k', 'n', 'o', 'w', 'n', ' ', 'o', 'r', ' ', 'N', 'o', ' ', 'S', 'a', 'f', 'e', 't', 'y', ' ', 'E', 'f', 'f', 'e', 'c', 't', ' ', '(', '>', ' ', '1', 'x', '1', '0', '-', '3', ' ', 'p', 'e', 'r', ' ', 'f', 'l', 'i', 'g', 'h', 't', ' ', 'h', 'o', 'u', 'r', '\n', ' ', ' ', ' ', ' ', ' ', ' ', ' ', ' ', ' ', ' ', ' ', ' ', ' ', ' ', ' ', ' ', 'o', 'r', ' ', 'U', 'n', 'k', 'n', 'o', 'w', 'n', ')']);
    reveal_strlit("Minor (≤ 1x10-3 per flight hour)");
    assert("Minor (≤ 1x10-3 per flight hour)"@ =~= seq!['M', 'i', 'n', 'o', 'r', ' ', '(', '≤', ' ', '1', 'x', '1', '0', '-', '3', ' ', 'p', 'e', 'r', ' ', 'f', 'l', 'i', 'g', 'h', 't', ' ', 'h', 'o', 'u', 'r', ')']);
    reveal_strlit("Major (≤ 1x10-5 per flight hour)");
    assert("Major (≤ 1x10-5 per flight hour)"@ =~= seq!['M', 'a', 'j', 'o', 'r', ' ', '(', '≤', ' ', '1', 'x', '1', '0', '-', '5', ' ', 'p', 'e', 'r', ' ', 'f', 'l', 'i', 'g', 'h', 't', ' ', 'h', 'o', 'u', 'r', ')']);
    reveal_strlit("Hazardous (≤ 1x10 per flight hour)");
    assert("Hazardous (≤ 1x10 per flight hour)"@ =~= seq!['H', 'a', 'z', 'a', 'r', 'd', 'o', 'u', 's', ' ', '(', '≤', ' ', '1', 'x', '1', '0', ' ', 'p', 'e', 'r', ' ', 'f', 'l', 'i', 'g', 'h', 't', ' ', 'h', 'o', 'u', 'r', ')']);
    reveal_strlit("Unknown");
    assert("Unknown"@ =~= seq!['U', 'n', 'k', 'n', 'o', 'w', 'n']);
    reveal_strlit("Minor");
    assert("Minor"@ =~= seq!['M', 'i', 'n', 'o', 'r']);
    reveal_strlit("Major");
    assert("Major"@ =~= seq!['M', 'a', 'j', 'o', 'r']);
    reveal_strlit("Hazardous");
    assert("Hazardous"@ =~= seq!['H', 'a', 'z', 'a', 'r', 'd', 'o', 'u', 's']);
    if n <= 3 {
        let c = SystemDesignAssurance::from_wire_value(n).unwrap();
        let name = if n == 0 {
            "Unknown"@
        } else if n == 1 {
            "Minor"@
        } else if n == 2 {
            "Major"@
        } else {
            "Hazardous"@
        };
        assert(c.display_text().subrange(0, name.len() as int) =~= name);
    }
}

} // verus!
