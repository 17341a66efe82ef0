//! ADS-B emergency/priority status (`emergency` in aircraft.json), a superset
//! of the 7x00 squawks.

use vstd::prelude::*;
use vstd::string::*;

use crate::decoders::helpers::strings::str_equals;

verus! {

#[derive(Debug, Clone, Copy, PartialEq, Eq, Structural, PartialOrd)]
pub enum Emergency {
    NoEmergency,
    General,
    Lifeguard,
    Minfuel,
    Nordo,
    Unlawful,
    Downed,
    Reserved,
}

impl Default for Emergency {
    fn default() -> (res: Self)
        ensures
            res == Emergency::NoEmergency,
    {
        Emergency::NoEmergency
    }
}

impl Emergency {
    /// The text a status is serialized as.
    pub open spec fn wire_text(self) -> Seq<char> {
        match self {
            Emergency::NoEmergency => "none"@,
            Emergency::General => "general"@,
            Emergency::Lifeguard => "lifeguard"@,
            Emergency::Minfuel => "minfuel"@,
            Emergency::Nordo => "nordo"@,
            Emergency::Unlawful => "unlawful"@,
            Emergency::Downed => "downed"@,
            Emergency::Reserved => "reserved"@,
        }
    }

    /// The status a serialized text stands for, if any.
    pub open spec fn from_wire_text(value: Seq<char>) -> Option<Emergency> {
        if value == "none"@ {
            Some(Emergency::NoEmergency)
        } else if value == "general"@ {
            Some(Emergency::General)
        } else if value == "lifeguard"@ {
            Some(Emergency::Lifeguard)
        } else if value == "minfuel"@ {
            Some(Emergency::Minfuel)
        } else if value == "nordo"@ {
            Some(Emergency::Nordo)
        } else if value == "unlawful"@ {
            Some(Emergency::Unlawful)
        } else if value == "downed"@ {
            Some(Emergency::Downed)
        } else if value == "reserved"@ {
            Some(Emergency::Reserved)
        } else {
            None
        }
    }

    /// The human readable text of a status.
    pub open spec fn display_text(self) -> Seq<char> {
        match self {
            Emergency::NoEmergency => "No emergency"@,
            Emergency::General => "General emergency"@,
            Emergency::Lifeguard => "Lifeguard"@,
            Emergency::Minfuel => "Minimum fuel"@,
            Emergency::Nordo => "No radio"@,
            Emergency::Unlawful => "Unlawful interference"@,
            Emergency::Downed => "Downed aircraft"@,
            Emergency::Reserved => "Reserved"@,
        }
    }

    /// The text this status is serialized as.
    pub fn serialize(&self) -> (res: String)
        ensures
            res@ == self.wire_text(),
    {
        match self {
            Emergency::NoEmergency => String::from_str("none"),
            Emergency::General => String::from_str("general"),
            Emergency::Lifeguard => String::from_str("lifeguard"),
            Emergency::Minfuel => String::from_str("minfuel"),
            Emergency::Nordo => String::from_str("nordo"),
            Emergency::Unlawful => String::from_str("unlawful"),
            Emergency::Downed => String::from_str("downed"),
            Emergency::Reserved => String::from_str("reserved"),
        }
    }

    /// The human readable text of this status.
    pub fn to_string(&self) -> (res: String)
        ensures
            res@ == self.display_text(),
    {
        match self {
            Emergency::NoEmergency => String::from_str("No emergency"),
            Emergency::General => String::from_str("General emergency"),
            Emergency::Lifeguard => String::from_str("Lifeguard"),
            Emergency::Minfuel => String::from_str("Minimum fuel"),
            Emergency::Nordo => String::from_str("No radio"),
            Emergency::Unlawful => String::from_str("Unlawful interference"),
            Emergency::Downed => String::from_str("Downed aircraft"),
            Emergency::Reserved => String::from_str("Reserved"),
        }
    }
}

impl TryFrom<String> for Emergency {
    type Error = String;

    fn try_from(emergency: String) -> (res: Result<Self, Self::Error>)
        ensures
            match Emergency::from_wire_text(emergency@) {
                Some(value) => res == Ok::<Emergency, String>(value),
                None => res matches Err(message) && message@ == "Invalid emergency: "@ + emergency@,
            },
    {
        let text = emergency.as_str();
        if str_equals(text, "none") {
            Ok(Emergency::NoEmergency)
        } else if str_equals(text, "general") {
            Ok(Emergency::General)
        } else if str_equals(text, "lifeguard") {
            Ok(Emergency::Lifeguard)
        } else if str_equals(text, "minfuel") {
            Ok(Emergency::Minfuel)
        } else if str_equals(text, "nordo") {
            Ok(Emergency::Nordo)
        } else if str_equals(text, "unlawful") {
            Ok(Emergency::Unlawful)
        } else if str_equals(text, "downed") {
            Ok(Emergency::Downed)
        } else if str_equals(text, "reserved") {
            Ok(Emergency::Reserved)
        } else {
            let mut message = String::from_str("Invalid emergency: ");
            message.append(text);
            Err(message)
        }
    }
}

impl vstd::std_specs::convert::TryFromSpecImpl<String> for Emergency {
    /// The error for a refused text is a message, which no spec value can
    /// carry; `try_from` states its exact result itself.
    open spec fn obeys_try_from_spec() -> bool {
        false
    }

    open spec fn try_from_spec(value: String) -> Result<Self, String> {
        arbitrary()
    }
}

/// Serializing a status and reading the text back gives the status.
pub proof fn lemma_emergency_round_trip(value: Emergency)
    ensures
        Emergency::from_wire_text(value.wire_text()) == Some(value),
{
    reveal_strlit("downed");
    assert("downed"@ =~= seq!['d', 'o', 'w', 'n', 'e', 'd']);
    reveal_strlit("general");
    assert("general"@ =~= seq!['g', 'e', 'n', 'e', 'r', 'a', 'l']);
    reveal_strlit("lifeguard");
    assert("lifeguard"@ =~= seq!['l', 'i', 'f', 'e', 'g', 'u', 'a', 'r', 'd']);
    reveal_strlit("minfuel");
    assert("minfuel"@ =~= seq!['m', 'i', 'n', 'f', 'u', 'e', 'l']);
    reveal_strlit("none");
    assert("none"@ =~= seq!['n', 'o', 'n', 'e']);
    reveal_strlit("nordo");
    assert("nordo"@ =~= seq!['n', 'o', 'r', 'd', 'o']);
    reveal_strlit("reserved");
    assert("reserved"@ =~= seq!['r', 'e', 's', 'e', 'r', 'v', 'e', 'd']);
    reveal_strlit("unlawful");
    assert("unlawful"@ =~= seq!['u', 'n', 'l', 'a', 'w', 'f', 'u', 'l']);
}

/// A text read as a status is the text that status serializes as.
pub proof fn lemma_emergency_text_round_trip(text: Seq<char>)
    ensures
        Emergency::from_wire_text(text) matches Some(value) ==> value.wire_text() == text,
{
}

/// Each JSON text of a status is read as the status the text names: the one
/// displayed with the matching human readable text.
pub proof fn lemma_emergency_texts_named(text: Seq<char>)
    ensures
        text == "none"@ ==> (Emergency::from_wire_text(text) matches Some(v) && v.display_text() == "No emergency"@),
        text == "general"@ ==> (Emergency::from_wire_text(text) matches Some(v) && v.display_text() == "General emergency"@),
        text == "lifeguard"@ ==> (Emergency::from_wire_text(text) matches Some(v) && v.display_text() == "Lifeguard"@),
        text == "minfuel"@ ==> (Emergency::from_wire_text(text) matches Some(v) && v.display_text() == "Minimum fuel"@),
        text == "nordo"@ ==> (Emergency::from_wire_text(text) matches Some(v) && v.display_text() == "No radio"@),
        text == "unlawful"@ ==> (Emergency::from_wire_text(text) matches Some(v) && v.display_text() == "Unlawful interference"@),
        text == "downed"@ ==> (Emergency::from_wire_text(text) matches Some(v) && v.display_text() == "Downed aircraft"@),
        text == "reserved"@ ==> (Emergency::from_wire_text(text) matches Some(v) && v.display_text() == "Reserved"@),
{
    reveal_strlit("none");
    assert("none"@ =~= seq!['n', 'o', 'n', 'e']);
    reveal_strlit("general");
    assert("general"@ =~= seq!['g', 'e', 'n', 'e', 'r', 'a', 'l']);
    reveal_strlit("lifeguard");
    assert("lifeguard"@ =~= seq!['l', 'i', 'f', 'e', 'g', 'u', 'a', 'r', 'd']);
    reveal_strlit("minfuel");
    assert("minfuel"@ =~= seq!['m', 'i', 'n', 'f', 'u', 'e', 'l']);
    reveal_strlit("nordo");
    assert("nordo"@ =~= seq!['n', 'o', 'r', 'd', 'o']);
    reveal_strlit("unlawful");
    assert("unlawful"@ =~= seq!['u', 'n', 'l', 'a', 'w', 'f', 'u', 'l']);
    reveal_strlit("downed");
    assert("downed"@ =~= seq!['d', 'o', 'w', 'n', 'e', 'd']);
    reveal_strlit("reserved");
    assert("reserved"@ =~= seq!['r', 'e', 's', 'e', 'r', 'v', 'e', 'd']);
    reveal_strlit("No emergency");
    assert("No emergency"@ =~= seq!['N', 'o', ' ', 'e', 'm', 'e', 'r', 'g', 'e', 'n', 'c', 'y']);
    reveal_strlit("General emergency");
    assert("General emergency"@ =~= seq!['G', 'e', 'n', 'e', 'r', 'a', 'l', ' ', 'e', 'm', 'e', 'r', 'g', 'e', 'n', 'c', 'y']);
    reveal_strlit("Lifeguard");
    assert("Lifeguard"@ =~= seq!['L', 'i', 'f', 'e', 'g', 'u', 'a', 'r', 'd']);
    reveal_strlit("Minimum fuel");
    assert("Minimum fuel"@ =~= seq!['M', 'i', 'n', 'i', 'm', 'u', 'm', ' ', 'f', 'u', 'e', 'l']);
    reveal_strlit("No radio");
    assert("No radio"@ =~= seq!['N', 'o', ' ', 'r', 'a', 'd', 'i', 'o']);
    reveal_strlit("Unlawful interference");
    assert("Unlawful interference"@ =~= seq!['U', 'n', 'l', 'a', 'w', 'f', 'u', 'l', ' ', 'i', 'n', 't', 'e', 'r', 'f', 'e', 'r', 'e', 'n', 'c', 'e']);
    reveal_strlit("Downed aircraft");
    assert("Downed aircraft"@ =~= seq!['D', 'o', 'w', 'n', 'e', 'd', ' ', 'a', 'i', 'r', 'c', 'r', 'a', 'f', 't']);
    reveal_strlit("Reserved");
    assert("Reserved"@ =~= seq!['R', 'e', 's', 'e', 'r', 'v', 'e', 'd']);
}

} // verus!
