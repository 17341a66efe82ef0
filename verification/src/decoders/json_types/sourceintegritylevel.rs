//! Interpretation of the source integrity level (`sil_type` in aircraft.json).

use vstd::prelude::*;
use vstd::string::*;

use crate::decoders::helpers::strings::str_equals;

verus! {

#[derive(Debug, Clone, Copy, PartialEq, Eq, Structural, PartialOrd)]
pub enum SourceIntegrityLevelType {
    Unknown,
    PerSample,
    PerHour,
}

impl Default for SourceIntegrityLevelType {
    fn default() -> (res: Self)
        ensures
            res == SourceIntegrityLevelType::Unknown,
    {
        SourceIntegrityLevelType::Unknown
    }
}

impl SourceIntegrityLevelType {
    /// The text an interpretation is serialized as.
    pub open spec fn wire_text(self) -> Seq<char> {
        match self {
            SourceIntegrityLevelType::Unknown => "unknown"@,
            SourceIntegrityLevelType::PerSample => "persample"@,
            SourceIntegrityLevelType::PerHour => "perhour"@,
        }
    }

    /// The interpretation a serialized text stands for, if any.
    pub open spec fn from_wire_text(value: Seq<char>) -> Option<SourceIntegrityLevelType> {
        if value == "persample"@ {
            Some(SourceIntegrityLevelType::PerSample)
        } else if value == "perhour"@ {
            Some(SourceIntegrityLevelType::PerHour)
        } else if value == "unknown"@ {
            Some(SourceIntegrityLevelType::Unknown)
        } else {
            None
        }
    }

    /// The human readable text of an interpretation.
    pub open spec fn display_text(self) -> Seq<char> {
        match self {
            SourceIntegrityLevelType::Unknown => "Unknown"@,
            SourceIntegrityLevelType::PerSample => "Per Sample"@,
            SourceIntegrityLevelType::PerHour => "Per Hour"@,
        }
    }

    /// The text this interpretation is serialized as.
    pub fn serialize(&self) -> (res: String)
        ensures
            res@ == self.wire_text(),
    {
        match self {
            SourceIntegrityLevelType::Unknown => String::from_str("unknown"),
            SourceIntegrityLevelType::PerSample => String::from_str("persample"),
            SourceIntegrityLevelType::PerHour => String::from_str("perhour"),
        }
    }

    /// The human readable text of this interpretation.
    pub fn to_string(&self) -> (res: String)
        ensures
            res@ == self.display_text(),
    {
        match self {
            SourceIntegrityLevelType::Unknown => String::from_str("Unknown"),
            SourceIntegrityLevelType::PerSample => String::from_str("Per Sample"),
            SourceIntegrityLevelType::PerHour => String::from_str("Per Hour"),
        }
    }
}

impl TryFrom<String> for SourceIntegrityLevelType {
    type Error = String;

    fn try_from(source_integrity_level: String) -> (res: Result<Self, Self::Error>)
        ensures
            match SourceIntegrityLevelType::from_wire_text(source_integrity_level@) {
                Some(value) => res == Ok::<SourceIntegrityLevelType, String>(value),
                None => res matches Err(message) && message@ == "SIL should be unknown, persample, perhour, inclusive. Found "@ + source_integrity_level@,
            },
    {
        let text = source_integrity_level.as_str();
        if str_equals(text, "persample") {
            Ok(SourceIntegrityLevelType::PerSample)
        } else if str_equals(text, "perhour") {
            Ok(SourceIntegrityLevelType::PerHour)
        } else if str_equals(text, "unknown") {
            Ok(SourceIntegrityLevelType::Unknown)
        } else {
            let mut message = String::from_str("SIL should be unknown, persample, perhour, inclusive. Found ");
            message.append(text);
            Err(message)
        }
    }
}

impl vstd::std_specs::convert::TryFromSpecImpl<String> for SourceIntegrityLevelType {
    /// The error for a refused text is a message, which no spec value can
    /// carry; `try_from` states its exact result itself.
    open spec fn obeys_try_from_spec() -> bool {
        false
    }

    open spec fn try_from_spec(value: String) -> Result<Self, String> {
        arbitrary()
    }
}

/// Serializing an interpretation and reading the text back gives the interpretation.
pub proof fn lemma_sil_type_round_trip(value: SourceIntegrityLevelType)
    ensures
        SourceIntegrityLevelType::from_wire_text(value.wire_text()) == Some(value),
{
    reveal_strlit("perhour");
    assert("perhour"@ =~= seq!['p', 'e', 'r', 'h', 'o', 'u', 'r']);
    reveal_strlit("persample");
    assert("persample"@ =~= seq!['p', 'e', 'r', 's', 'a', 'm', 'p', 'l', 'e']);
    reveal_strlit("unknown");
    assert("unknown"@ =~= seq!['u', 'n', 'k', 'n', 'o', 'w', 'n']);
}

/// A text read as an interpretation is the text that interpretation serializes as.
pub proof fn lemma_sil_type_text_round_trip(text: Seq<char>)
    ensures
        SourceIntegrityLevelType::from_wire_text(text) matches Some(value) ==> value.wire_text() == text,
{
}

/// Each JSON text of a interpretation is read as the interpretation the text names: the one
/// displayed with the matching human readable text.
pub proof fn lemma_sil_type_texts_named(text: Seq<char>)
    ensures
        text == "unknown"@ ==> (SourceIntegrityLevelType::from_wire_text(text) matches Some(v) && v.display_text() == "Unknown"@),
        text == "persample"@ ==> (SourceIntegrityLevelType::from_wire_text(text) matches Some(v) && v.display_text() == "Per Sample"@),
        text == "perhour"@ ==> (SourceIntegrityLevelType::from_wire_text(text) matches Some(v) && v.display_text() == "Per Hour"@),
{
    reveal_strlit("unknown");
    assert("unknown"@ =~= seq!['u', 'n', 'k', 'n', 'o', 'w', 'n']);
    reveal_strlit("persample");
    assert("persample"@ =~= seq!['p', 'e', 'r', 's', 'a', 'm', 'p', 'l', 'e']);
    reveal_strlit("perhour");
    assert("perhour"@ =~= seq!['p', 'e', 'r', 'h', 'o', 'u', 'r']);
    reveal_strlit("Unknown");
    assert("Unknown"@ =~= seq!['U', 'n', 'k', 'n', 'o', 'w', 'n']);
    reveal_strlit("Per Sample");
    assert("Per Sample"@ =~= seq!['P', 'e', 'r', ' ', 'S', 'a', 'm', 'p', 'l', 'e']);
    reveal_strlit("Per Hour");
    assert("Per Hour"@ =~= seq!['P', 'e', 'r', ' ', 'H', 'o', 'u', 'r']);
}

} // verus!
