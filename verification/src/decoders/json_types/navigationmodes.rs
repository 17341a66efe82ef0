//! Engaged automation modes (`nav_modes` in aircraft.json).

use vstd::prelude::*;
use vstd::string::*;

use crate::decoders::helpers::strings::str_equals;

verus! {

#[derive(Debug, Clone, Copy, PartialEq, Eq, Structural, PartialOrd)]
pub enum NavigationModes {
    Autopilot,
    VNAV,
    AltHold,
    Approach,
    LNAV,
    TCAS,
    NoMode,
}

impl Default for NavigationModes {
    fn default() -> (res: Self)
        ensures
            res == NavigationModes::NoMode,
    {
        NavigationModes::NoMode
    }
}

impl NavigationModes {
    /// The text a mode is serialized as.
    pub open spec fn wire_text(self) -> Seq<char> {
        match self {
            NavigationModes::Autopilot => "autopilot"@,
            NavigationModes::VNAV => "vnav"@,
            NavigationModes::AltHold => "althold"@,
            NavigationModes::Approach => "approach"@,
            NavigationModes::LNAV => "lnav"@,
            NavigationModes::TCAS => "tcas"@,
            NavigationModes::NoMode => "none"@,
        }
    }

    /// The mode a serialized text stands for, if any.
    pub open spec fn from_wire_text(value: Seq<char>) -> Option<NavigationModes> {
        if value == "autopilot"@ {
            Some(NavigationModes::Autopilot)
        } else if value == "vnav"@ {
            Some(NavigationModes::VNAV)
        } else if value == "althold"@ {
            Some(NavigationModes::AltHold)
        } else if value == "approach"@ {
            Some(NavigationModes::Approach)
        } else if value == "lnav"@ {
            Some(NavigationModes::LNAV)
        } else if value == "tcas"@ {
            Some(NavigationModes::TCAS)
        } else {
            None
        }
    }

    /// The human readable text of a mode.
    pub open spec fn display_text(self) -> Seq<char> {
        match self {
            NavigationModes::Autopilot => "Autopilot"@,
            NavigationModes::VNAV => "Vertical Navigation"@,
            NavigationModes::AltHold => "Altitude Hold"@,
            NavigationModes::Approach => "Approach"@,
            NavigationModes::LNAV => "Lateral Navigation"@,
            NavigationModes::TCAS => "Traffic Collision Avoidance System"@,
            NavigationModes::NoMode => "None"@,
        }
    }

    /// The text this mode is serialized as.
    pub fn serialize(&self) -> (res: String)
        ensures
            res@ == self.wire_text(),
    {
        match self {
            NavigationModes::Autopilot => String::from_str("autopilot"),
            NavigationModes::VNAV => String::from_str("vnav"),
            NavigationModes::AltHold => String::from_str("althold"),
            NavigationModes::Approach => String::from_str("approach"),
            NavigationModes::LNAV => String::from_str("lnav"),
            NavigationModes::TCAS => String::from_str("tcas"),
            NavigationModes::NoMode => String::from_str("none"),
        }
    }

    /// The human readable text of this mode.
    pub fn to_string(&self) -> (res: String)
        ensures
            res@ == self.display_text(),
    {
        match self {
            NavigationModes::Autopilot => String::from_str("Autopilot"),
            NavigationModes::VNAV => String::from_str("Vertical Navigation"),
            NavigationModes::AltHold => String::from_str("Altitude Hold"),
            NavigationModes::Approach => String::from_str("Approach"),
            NavigationModes::LNAV => String::from_str("Lateral Navigation"),
            NavigationModes::TCAS => String::from_str("Traffic Collision Avoidance System"),
            NavigationModes::NoMode => String::from_str("None"),
        }
    }
}

impl TryFrom<String> for NavigationModes {
    type Error = String;

    fn try_from(navigation_modes: String) -> (res: Result<Self, Self::Error>)
        ensures
            match NavigationModes::from_wire_text(navigation_modes@) {
                Some(value) => res == Ok::<NavigationModes, String>(value),
                None => res matches Err(message) && message@ == "Invalid navigation mode: "@ + navigation_modes@,
            },
    {
        let text = navigation_modes.as_str();
        if str_equals(text, "autopilot") {
            Ok(NavigationModes::Autopilot)
        } else if str_equals(text, "vnav") {
            Ok(NavigationModes::VNAV)
        } else if str_equals(text, "althold") {
            Ok(NavigationModes::AltHold)
        } else if str_equals(text, "approach") {
            Ok(NavigationModes::Approach)
        } else if str_equals(text, "lnav") {
            Ok(NavigationModes::LNAV)
        } else if str_equals(text, "tcas") {
            Ok(NavigationModes::TCAS)
        } else {
            let mut message = String::from_str("Invalid navigation mode: ");
            message.append(text);
            Err(message)
        }
    }
}

impl vstd::std_specs::convert::TryFromSpecImpl<String> for NavigationModes {
    /// The error for a refused text is a message, which no spec value can
    /// carry; `try_from` states its exact result itself.
    open spec fn obeys_try_from_spec() -> bool {
        false
    }

    open spec fn try_from_spec(value: String) -> Result<Self, String> {
        arbitrary()
    }
}

/// Serializing a mode other than `NoMode` and reading the text back gives the
/// mode; `NoMode` is serialized as a text that reading refuses.
pub proof fn lemma_navigation_mode_round_trip(value: NavigationModes)
    ensures
        value != NavigationModes::NoMode ==> NavigationModes::from_wire_text(value.wire_text()) == Some(value),
        NavigationModes::from_wire_text(NavigationModes::NoMode.wire_text()) is None,
{
    reveal_strlit("althold");
    assert("althold"@ =~= seq!['a', 'l', 't', 'h', 'o', 'l', 'd']);
    reveal_strlit("approach");
    assert("approach"@ =~= seq!['a', 'p', 'p', 'r', 'o', 'a', 'c', 'h']);
    reveal_strlit("autopilot");
    assert("autopilot"@ =~= seq!['a', 'u', 't', 'o', 'p', 'i', 'l', 'o', 't']);
    reveal_strlit("lnav");
    assert("lnav"@ =~= seq!['l', 'n', 'a', 'v']);
    reveal_strlit("none");
    assert("none"@ =~= seq!['n', 'o', 'n', 'e']);
    reveal_strlit("tcas");
    assert("tcas"@ =~= seq!['t', 'c', 'a', 's']);
    reveal_strlit("vnav");
    assert("vnav"@ =~= seq!['v', 'n', 'a', 'v']);
}

/// A text read as a mode is the text that mode serializes as.
pub proof fn lemma_navigation_mode_text_round_trip(text: Seq<char>)
    ensures
        NavigationModes::from_wire_text(text) matches Some(value) ==> value.wire_text() == text,
{
}

/// Each JSON text of a mode is read as the mode the text names: the one
/// displayed with the matching human readable text.
pub proof fn lemma_navigation_mode_texts_named(text: Seq<char>)
    ensures
        text == "autopilot"@ ==> (NavigationModes::from_wire_text(text) matches Some(v) && v.display_text() == "Autopilot"@),
        text == "vnav"@ ==> (NavigationModes::from_wire_text(text) matches Some(v) && v.display_text() == "Vertical Navigation"@),
        text == "althold"@ ==> (NavigationModes::from_wire_text(text) matches Some(v) && v.display_text() == "Altitude Hold"@),
        text == "approach"@ ==> (NavigationModes::from_wire_text(text) matches Some(v) && v.display_text() == "Approach"@),
        text == "lnav"@ ==> (NavigationModes::from_wire_text(text) matches Some(v) && v.display_text() == "Lateral Navigation"@),
        text == "tcas"@ ==> (NavigationModes::from_wire_text(text) matches Some(v) && v.display_text() == "Traffic Collision Avoidance System"@),
{
    reveal_strlit("autopilot");
    assert("autopilot"@ =~= seq!['a', 'u', 't', 'o', 'p', 'i', 'l', 'o', 't']);
    reveal_strlit("vnav");
    assert("vnav"@ =~= seq!['v', 'n', 'a', 'v']);
    reveal_strlit("althold");
    assert("althold"@ =~= seq!['a', 'l', 't', 'h', 'o', 'l', 'd']);
    reveal_strlit("approach");
    assert("approach"@ =~= seq!['a', 'p', 'p', 'r', 'o', 'a', 'c', 'h']);
    reveal_strlit("lnav");
    assert("lnav"@ =~= seq!['l', 'n', 'a', 'v']);
    reveal_strlit("tcas");
    assert("tcas"@ =~= seq!['t', 'c', 'a', 's']);
    reveal_strlit("Autopilot");
    assert("Autopilot"@ =~= seq!['A', 'u', 't', 'o', 'p', 'i', 'l', 'o', 't']);
    reveal_strlit("Vertical Navigation");
    assert("Vertical Navigation"@ =~= seq!['V', 'e', 'r', 't', 'i', 'c', 'a', 'l', ' ', 'N', 'a', 'v', 'i', 'g', 'a', 't', 'i', 'o', 'n']);
    reveal_strlit("Altitude Hold");
    assert("Altitude Hold"@ =~= seq!['A', 'l', 't', 'i', 't', 'u', 'd', 'e', ' ', 'H', 'o', 'l', 'd']);
    reveal_strlit("Approach");
    assert("Approach"@ =~= seq!['A', 'p', 'p', 'r', 'o', 'a', 'c', 'h']);
    reveal_strlit("Lateral Navigation");
    assert("Lateral Navigation"@ =~= seq!['L', 'a', 't', 'e', 'r', 'a', 'l', ' ', 'N', 'a', 'v', 'i', 'g', 'a', 't', 'i', 'o', 'n']);
    reveal_strlit("Traffic Collision Avoidance System");
    assert("Traffic Collision Avoidance System"@ =~= seq!['T', 'r', 'a', 'f', 'f', 'i', 'c', ' ', 'C', 'o', 'l', 'l', 'i', 's', 'i', 'o', 'n', ' ', 'A', 'v', 'o', 'i', 'd', 'a', 'n', 'c', 'e', ' ', 'S', 'y', 's', 't', 'e', 'm']);
}

} // verus!
