//! Fields of an aircraft derived from MLAT data (`mlat` in aircraft.json).

use vstd::prelude::*;
use vstd::string::*;

use crate::decoders::helpers::strings::str_equals;

verus! {

#[derive(Debug, Clone, Copy, PartialEq, Eq, Structural, PartialOrd)]
pub enum MLATFields {
    Altitude,
    GroundSpeed,
    Track,
    BaroRate,
    Latitude,
    Longitude,
    NIC,
    RC,
    NACv,
    NACp,
    Sil,
    SilType,
    NoField,
}

impl Default for MLATFields {
    fn default() -> (res: Self)
        ensures
            res == MLATFields::NoField,
    {
        MLATFields::NoField
    }
}

impl MLATFields {
    /// The text a field is serialized as.
    pub open spec fn wire_text(self) -> Seq<char> {
        match self {
            MLATFields::Altitude => "altitude"@,
            MLATFields::GroundSpeed => "gs"@,
            MLATFields::Track => "track"@,
            MLATFields::BaroRate => "baro_rate"@,
            MLATFields::Latitude => "lat"@,
            MLATFields::Longitude => "lon"@,
            MLATFields::NIC => "nic"@,
            MLATFields::RC => "rc"@,
            MLATFields::NACv => "nac_v"@,
            MLATFields::NACp => "nac_p"@,
            MLATFields::Sil => "sil"@,
            MLATFields::SilType => "sil_type"@,
            MLATFields::NoField => "none"@,
        }
    }

    /// The field a serialized text stands for, if any.
    pub open spec fn from_wire_text(value: Seq<char>) -> Option<MLATFields> {
        if value == "altitude"@ {
            Some(MLATFields::Altitude)
        } else if value == "gs"@ {
            Some(MLATFields::GroundSpeed)
        } else if value == "track"@ {
            Some(MLATFields::Track)
        } else if value == "baro_rate"@ {
            Some(MLATFields::BaroRate)
        } else if value == "lat"@ {
            Some(MLATFields::Latitude)
        } else if value == "lon"@ {
            Some(MLATFields::Longitude)
        } else if value == "nic"@ {
            Some(MLATFields::NIC)
        } else if value == "rc"@ {
            Some(MLATFields::RC)
        } else if value == "nac_v"@ {
            Some(MLATFields::NACv)
        } else if value == "nac_p"@ {
            Some(MLATFields::NACp)
        } else if value == "sil"@ {
            Some(MLATFields::Sil)
        } else if value == "sil_type"@ {
            Some(MLATFields::SilType)
        } else if value == "none"@ {
            Some(MLATFields::NoField)
        } else {
            None
        }
    }

    /// The human readable text of a field.
    pub open spec fn display_text(self) -> Seq<char> {
        match self {
            MLATFields::Altitude => "Altitude"@,
            MLATFields::GroundSpeed => "Ground Speed"@,
            MLATFields::Track => "Track"@,
            MLATFields::BaroRate => "Barometric Rate"@,
            MLATFields::Latitude => "Latitude"@,
            MLATFields::Longitude => "Longitude"@,
            MLATFields::NIC => "NIC"@,
            MLATFields::RC => "RC"@,
            MLATFields::NACv => "NACv"@,
            MLATFields::NACp => "NACp"@,
            MLATFields::Sil => "SIL"@,
            MLATFields::SilType => "SIL Type"@,
            MLATFields::NoField => "None"@,
        }
    }

    /// The text this field is serialized as.
    pub fn serialize(&self) -> (res: String)
        ensures
            res@ == self.wire_text(),
    {
        match self {
            MLATFields::Altitude => String::from_str("altitude"),
            MLATFields::GroundSpeed => String::from_str("gs"),
            MLATFields::Track => String::from_str("track"),
            MLATFields::BaroRate => String::from_str("baro_rate"),
            MLATFields::Latitude => String::from_str("lat"),
            MLATFields::Longitude => String::from_str("lon"),
            MLATFields::NIC => String::from_str("nic"),
            MLATFields::RC => String::from_str("rc"),
            MLATFields::NACv => String::from_str("nac_v"),
            MLATFields::NACp => String::from_str("nac_p"),
            MLATFields::Sil => String::from_str("sil"),
            MLATFields::SilType => String::from_str("sil_type"),
            MLATFields::NoField => String::from_str("none"),
        }
    }

    /// The human readable text of this field.
    pub fn to_string(&self) -> (res: String)
        ensures
            res@ == self.display_text(),
    {
        match self {
            MLATFields::Altitude => String::from_str("Altitude"),
            MLATFields::GroundSpeed => String::from_str("Ground Speed"),
            MLATFields::Track => String::from_str("Track"),
            MLATFields::BaroRate => String::from_str("Barometric Rate"),
            MLATFields::Latitude => String::from_str("Latitude"),
            MLATFields::Longitude => String::from_str("Longitude"),
            MLATFields::NIC => String::from_str("NIC"),
            MLATFields::RC => String::from_str("RC"),
            MLATFields::NACv => String::from_str("NACv"),
            MLATFields::NACp => String::from_str("NACp"),
            MLATFields::Sil => String::from_str("SIL"),
            MLATFields::SilType => String::from_str("SIL Type"),
            MLATFields::NoField => String::from_str("None"),
        }
    }
}

impl TryFrom<String> for MLATFields {
    type Error = String;

    fn try_from(field: String) -> (res: Result<Self, Self::Error>)
        ensures
            match MLATFields::from_wire_text(field@) {
                Some(value) => res == Ok::<MLATFields, String>(value),
                None => res matches Err(message) && message@ == "Invalid MLAT field: "@ + field@,
            },
    {
        let text = field.as_str();
        if str_equals(text, "altitude") {
            Ok(MLATFields::Altitude)
        } else if str_equals(text, "gs") {
            Ok(MLATFields::GroundSpeed)
        } else if str_equals(text, "track") {
            Ok(MLATFields::Track)
        } else if str_equals(text, "baro_rate") {
            Ok(MLATFields::BaroRate)
        } else if str_equals(text, "lat") {
            Ok(MLATFields::Latitude)
        } else if str_equals(text, "lon") {
            Ok(MLATFields::Longitude)
        } else if str_equals(text, "nic") {
            Ok(MLATFields::NIC)
        } else if str_equals(text, "rc") {
            Ok(MLATFields::RC)
        } else if str_equals(text, "nac_v") {
            Ok(MLATFields::NACv)
        } else if str_equals(text, "nac_p") {
            Ok(MLATFields::NACp)
        } else if str_equals(text, "sil") {
            Ok(MLATFields::Sil)
        } else if str_equals(text, "sil_type") {
            Ok(MLATFields::SilType)
        } else if str_equals(text, "none") {
            Ok(MLATFields::NoField)
        } else {
            let mut message = String::from_str("Invalid MLAT field: ");
            message.append(text);
            Err(message)
        }
    }
}

impl vstd::std_specs::convert::TryFromSpecImpl<String> for MLATFields {
    /// The error for a refused text is a message, which no spec value can
    /// carry; `try_from` states its exact result itself.
    open spec fn obeys_try_from_spec() -> bool {
        false
    }

    open spec fn try_from_spec(value: String) -> Result<Self, String> {
        arbitrary()
    }
}

/// Serializing a field and reading the text back gives the field.
pub proof fn lemma_mlat_field_round_trip(value: MLATFields)
    ensures
        MLATFields::from_wire_text(value.wire_text()) == Some(value),
{
    reveal_strlit("altitude");
    assert("altitude"@ =~= seq!['a', 'l', 't', 'i', 't', 'u', 'd', 'e']);
    reveal_strlit("baro_rate");
    assert("baro_rate"@ =~= seq!['b', 'a', 'r', 'o', '_', 'r', 'a', 't', 'e']);
    reveal_strlit("gs");
    assert("gs"@ =~= seq!['g', 's']);
    reveal_strlit("lat");
    assert("lat"@ =~= seq!['l', 'a', 't']);
    reveal_strlit("lon");
    assert("lon"@ =~= seq!['l', 'o', 'n']);
    reveal_strlit("nac_p");
    assert("nac_p"@ =~= seq!['n', 'a', 'c', '_', 'p']);
    reveal_strlit("nac_v");
    assert("nac_v"@ =~= seq!['n', 'a', 'c', '_', 'v']);
    reveal_strlit("nic");
    assert("nic"@ =~= seq!['n', 'i', 'c']);
    reveal_strlit("none");
    assert("none"@ =~= seq!['n', 'o', 'n', 'e']);
    reveal_strlit("rc");
    assert("rc"@ =~= seq!['r', 'c']);
    reveal_strlit("sil");
    assert("sil"@ =~= seq!['s', 'i', 'l']);
    reveal_strlit("sil_type");
    assert("sil_type"@ =~= seq!['s', 'i', 'l', '_', 't', 'y', 'p', 'e']);
    reveal_strlit("track");
    assert("track"@ =~= seq!['t', 'r', 'a', 'c', 'k']);
}

/// A text read as a field is the text that field serializes as.
pub proof fn lemma_mlat_field_text_round_trip(text: Seq<char>)
    ensures
        MLATFields::from_wire_text(text) matches Some(value) ==> value.wire_text() == text,
{
}

/// Each JSON text of a field is read as the field the text names: the one
/// displayed with the matching human readable text.
pub proof fn lemma_mlat_field_texts_named(text: Seq<char>)
    ensures
        text == "altitude"@ ==> (MLATFields::from_wire_text(text) matches Some(v) && v.display_text() == "Altitude"@),
        text == "gs"@ ==> (MLATFields::from_wire_text(text) matches Some(v) && v.display_text() == "Ground Speed"@),
        text == "track"@ ==> (MLATFields::from_wire_text(text) matches Some(v) && v.display_text() == "Track"@),
        text == "baro_rate"@ ==> (MLATFields::from_wire_text(text) matches Some(v) && v.display_text() == "Barometric Rate"@),
        text == "lat"@ ==> (MLATFields::from_wire_text(text) matches Some(v) && v.display_text() == "Latitude"@),
        text == "lon"@ ==> (MLATFields::from_wire_text(text) matches Some(v) && v.display_text() == "Longitude"@),
        text == "nic"@ ==> (MLATFields::from_wire_text(text) matches Some(v) && v.display_text() == "NIC"@),
        text == "rc"@ ==> (MLATFields::from_wire_text(text) matches Some(v) && v.display_text() == "RC"@),
        text == "nac_v"@ ==> (MLATFields::from_wire_text(text) matches Some(v) && v.display_text() == "NACv"@),
        text == "nac_p"@ ==> (MLATFields::from_wire_text(text) matches Some(v) && v.display_text() == "NACp"@),
        text == "sil"@ ==> (MLATFields::from_wire_text(text) matches Some(v) && v.display_text() == "SIL"@),
        text == "sil_type"@ ==> (MLATFields::from_wire_text(text) matches Some(v) && v.display_text() == "SIL Type"@),
        text == "none"@ ==> (MLATFields::from_wire_text(text) matches Some(v) && v.display_text() == "None"@),
{
    reveal_strlit("altitude");
    assert("altitude"@ =~= seq!['a', 'l', 't', 'i', 't', 'u', 'd', 'e']);
    reveal_strlit("gs");
    assert("gs"@ =~= seq!['g', 's']);
    reveal_strlit("track");
    assert("track"@ =~= seq!['t', 'r', 'a', 'c', 'k']);
    reveal_strlit("baro_rate");
    assert("baro_rate"@ =~= seq!['b', 'a', 'r', 'o', '_', 'r', 'a', 't', 'e']);
    reveal_strlit("lat");
    assert("lat"@ =~= seq!['l', 'a', 't']);
    reveal_strlit("lon");
    assert("lon"@ =~= seq!['l', 'o', 'n']);
    reveal_strlit("nic");
    assert("nic"@ =~= seq!['n', 'i', 'c']);
    reveal_strlit("rc");
    assert("rc"@ =~= seq!['r', 'c']);
    reveal_strlit("nac_v");
    assert("nac_v"@ =~= seq!['n', 'a', 'c', '_', 'v']);
    reveal_strlit("nac_p");
    assert("nac_p"@ =~= seq!['n', 'a', 'c', '_', 'p']);
    reveal_strlit("sil");
    assert("sil"@ =~= seq!['s', 'i', 'l']);
    reveal_strlit("sil_type");
    assert("sil_type"@ =~= seq!['s', 'i', 'l', '_', 't', 'y', 'p', 'e']);
    reveal_strlit("none");
    assert("none"@ =~= seq!['n', 'o', 'n', 'e']);
    reveal_strlit("Altitude");
    assert("Altitude"@ =~= seq!['A', 'l', 't', 'i', 't', 'u', 'd', 'e']);
    reveal_strlit("Ground Speed");
    assert("Ground Speed"@ =~= seq!['G', 'r', 'o', 'u', 'n', 'd', ' ', 'S', 'p', 'e', 'e', 'd']);
    reveal_strlit("Track");
    assert("Track"@ =~= seq!['T', 'r', 'a', 'c', 'k']);
    reveal_strlit("Barometric Rate");
    assert("Barometric Rate"@ =~= seq!['B', 'a', 'r', 'o', 'm', 'e', 't', 'r', 'i', 'c', ' ', 'R', 'a', 't', 'e']);
    reveal_strlit("Latitude");
    assert("Latitude"@ =~= seq!['L', 'a', 't', 'i', 't', 'u', 'd', 'e']);
    reveal_strlit("Longitude");
    assert("Longitude"@ =~= seq!['L', 'o', 'n', 'g', 'i', 't', 'u', 'd', 'e']);
    reveal_strlit("NIC");
    assert("NIC"@ =~= seq!['N', 'I', 'C']);
    reveal_strlit("RC");
    assert("RC"@ =~= seq!['R', 'C']);
    reveal_strlit("NACv");
    assert("NACv"@ =~= seq!['N', 'A', 'C', 'v']);
    reveal_strlit("NACp");
    assert("NACp"@ =~= seq!['N', 'A', 'C', 'p']);
    reveal_strlit("SIL");
    assert("SIL"@ =~= seq!['S', 'I', 'L']);
    reveal_strlit("SIL Type");
    assert("SIL Type"@ =~= seq!['S', 'I', 'L', ' ', 'T', 'y', 'p', 'e']);
    reveal_strlit("None");
    assert("None"@ =~= seq!['N', 'o', 'n', 'e']);
}

} // verus!
