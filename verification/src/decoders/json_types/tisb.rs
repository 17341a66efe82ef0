//! Fields of an aircraft derived from TIS-B data (`tisb` in aircraft.json).

use vstd::prelude::*;
use vstd::string::*;

use crate::decoders::helpers::strings::str_equals;

verus! {

#[derive(Debug, Clone, Copy, PartialEq, Eq, Structural, PartialOrd)]
pub enum TiSB {
    BaroRate,
    Callsign,
    Altitude,
    AltGeom,
    GroundSpeed,
    Track,
    GeomRate,
    Latitude,
    Longitude,
    NIC,
    RC,
    NACp,
    NACv,
    SIL,
    SILType,
    NoField,
}

impl Default for TiSB {
    fn default() -> (res: Self)
        ensures
            res == TiSB::NoField,
    {
        TiSB::NoField
    }
}

impl TiSB {
    /// The text a field is serialized as.
    pub open spec fn wire_text(self) -> Seq<char> {
        match self {
            TiSB::BaroRate => "baro_rate"@,
            TiSB::Callsign => "callsign"@,
            TiSB::Altitude => "altitude"@,
            TiSB::AltGeom => "alt_geom"@,
            TiSB::GroundSpeed => "gs"@,
            TiSB::Track => "track"@,
            TiSB::GeomRate => "geom_rate"@,
            TiSB::Latitude => "lat"@,
            TiSB::Longitude => "lon"@,
            TiSB::NIC => "nic"@,
            TiSB::RC => "rc"@,
            TiSB::NACp => "nac_p"@,
            TiSB::NACv => "nac_v"@,
            TiSB::SIL => "sil"@,
            TiSB::SILType => "sil_type"@,
            TiSB::NoField => "None"@,
        }
    }

    /// The field a serialized text stands for, if any.
    pub open spec fn from_wire_text(value: Seq<char>) -> Option<TiSB> {
        if value == "None"@ {
            Some(TiSB::NoField)
        } else if value == "baro_rate"@ {
            Some(TiSB::BaroRate)
        } else if value == "callsign"@ {
            Some(TiSB::Callsign)
        } else if value == "altitude"@ {
            Some(TiSB::Altitude)
        } else if value == "alt_geom"@ {
            Some(TiSB::AltGeom)
        } else if value == "gs"@ {
            Some(TiSB::GroundSpeed)
        } else if value == "track"@ {
            Some(TiSB::Track)
        } else if value == "geom_rate"@ {
            Some(TiSB::GeomRate)
        } else if value == "lat"@ {
            Some(TiSB::Latitude)
        } else if value == "lon"@ {
            Some(TiSB::Longitude)
        } else if value == "nic"@ {
            Some(TiSB::NIC)
        } else if value == "rc"@ {
            Some(TiSB::RC)
        } else if value == "nac_p"@ {
            Some(TiSB::NACp)
        } else if value == "nac_v"@ {
            Some(TiSB::NACv)
        } else if value == "sil"@ {
            Some(TiSB::SIL)
        } else if value == "sil_type"@ {
            Some(TiSB::SILType)
        } else {
            None
        }
    }

    /// The human readable text of a field.
    pub open spec fn display_text(self) -> Seq<char> {
        match self {
            TiSB::BaroRate => "Baro Rate"@,
            TiSB::Callsign => "Callsign"@,
            TiSB::Altitude => "Altitude"@,
            TiSB::AltGeom => "Altitude Geometric"@,
            TiSB::GroundSpeed => "Ground Speed"@,
            TiSB::Track => "Track"@,
            TiSB::GeomRate => "Geom Rate"@,
            TiSB::Latitude => "Latitude"@,
            TiSB::Longitude => "Longitude"@,
            TiSB::NIC => "NIC"@,
            TiSB::RC => "RC"@,
            TiSB::NACp => "NACp"@,
            TiSB::NACv => "NACv"@,
            TiSB::SIL => "SIL"@,
            TiSB::SILType => "SIL Type"@,
            TiSB::NoField => "None"@,
        }
    }

    /// The text this field is serialized as.
    pub fn serialize(&self) -> (res: String)
        ensures
            res@ == self.wire_text(),
    {
        match self {
            TiSB::BaroRate => String::from_str("baro_rate"),
            TiSB::Callsign => String::from_str("callsign"),
            TiSB::Altitude => String::from_str("altitude"),
            TiSB::AltGeom => String::from_str("alt_geom"),
            TiSB::GroundSpeed => String::from_str("gs"),
            TiSB::Track => String::from_str("track"),
            TiSB::GeomRate => String::from_str("geom_rate"),
            TiSB::Latitude => String::from_str("lat"),
            TiSB::Longitude => String::from_str("lon"),
            TiSB::NIC => String::from_str("nic"),
            TiSB::RC => String::from_str("rc"),
            TiSB::NACp => String::from_str("nac_p"),
            TiSB::NACv => String::from_str("nac_v"),
            TiSB::SIL => String::from_str("sil"),
            TiSB::SILType => String::from_str("sil_type"),
            TiSB::NoField => String::from_str("None"),
        }
    }

    /// The human readable text of this field.
    pub fn to_string(&self) -> (res: String)
        ensures
            res@ == self.display_text(),
    {
        match self {
            TiSB::BaroRate => String::from_str("Baro Rate"),
            TiSB::Callsign => String::from_str("Callsign"),
            TiSB::Altitude => String::from_str("Altitude"),
            TiSB::AltGeom => String::from_str("Altitude Geometric"),
            TiSB::GroundSpeed => String::from_str("Ground Speed"),
            TiSB::Track => String::from_str("Track"),
            TiSB::GeomRate => String::from_str("Geom Rate"),
            TiSB::Latitude => String::from_str("Latitude"),
            TiSB::Longitude => String::from_str("Longitude"),
            TiSB::NIC => String::from_str("NIC"),
            TiSB::RC => String::from_str("RC"),
            TiSB::NACp => String::from_str("NACp"),
            TiSB::NACv => String::from_str("NACv"),
            TiSB::SIL => String::from_str("SIL"),
            TiSB::SILType => String::from_str("SIL Type"),
            TiSB::NoField => String::from_str("None"),
        }
    }
}

impl TryFrom<String> for TiSB {
    type Error = String;

    fn try_from(field: String) -> (res: Result<Self, Self::Error>)
        ensures
            match TiSB::from_wire_text(field@) {
                Some(value) => res == Ok::<TiSB, String>(value),
                None => res matches Err(message) && message@ == "Invalid TiSB field: "@ + field@,
            },
    {
        let text = field.as_str();
        if str_equals(text, "None") {
            Ok(TiSB::NoField)
        } else if str_equals(text, "baro_rate") {
            Ok(TiSB::BaroRate)
        } else if str_equals(text, "callsign") {
            Ok(TiSB::Callsign)
        } else if str_equals(text, "altitude") {
            Ok(TiSB::Altitude)
        } else if str_equals(text, "alt_geom") {
            Ok(TiSB::AltGeom)
        } else if str_equals(text, "gs") {
            Ok(TiSB::GroundSpeed)
        } else if str_equals(text, "track") {
            Ok(TiSB::Track)
        } else if str_equals(text, "geom_rate") {
            Ok(TiSB::GeomRate)
        } else if str_equals(text, "lat") {
            Ok(TiSB::Latitude)
        } else if str_equals(text, "lon") {
            Ok(TiSB::Longitude)
        } else if str_equals(text, "nic") {
            Ok(TiSB::NIC)
        } else if str_equals(text, "rc") {
            Ok(TiSB::RC)
        } else if str_equals(text, "nac_p") {
            Ok(TiSB::NACp)
        } else if str_equals(text, "nac_v") {
            Ok(TiSB::NACv)
        } else if str_equals(text, "sil") {
            Ok(TiSB::SIL)
        } else if str_equals(text, "sil_type") {
            Ok(TiSB::SILType)
        } else {
            let mut message = String::from_str("Invalid TiSB field: ");
            message.append(text);
            Err(message)
        }
    }
}

impl vstd::std_specs::convert::TryFromSpecImpl<String> for TiSB {
    /// The error for a refused text is a message, which no spec value can
    /// carry; `try_from` states its exact result itself.
    open spec fn obeys_try_from_spec() -> bool {
        false
    }

    open spec fn try_from_spec(value: String) -> Result<Self, String> {
        arbitrary()
    }
}

/// Serializing a field and reading the text back gives the field.
pub proof fn lemma_tisb_field_round_trip(value: TiSB)
    ensures
        TiSB::from_wire_text(value.wire_text()) == Some(value),
{
    reveal_strlit("None");
    assert("None"@ =~= seq!['N', 'o', 'n', 'e']);
    reveal_strlit("alt_geom");
    assert("alt_geom"@ =~= seq!['a', 'l', 't', '_', 'g', 'e', 'o', 'm']);
    reveal_strlit("altitude");
    assert("altitude"@ =~= seq!['a', 'l', 't', 'i', 't', 'u', 'd', 'e']);
    reveal_strlit("baro_rate");
    assert("baro_rate"@ =~= seq!['b', 'a', 'r', 'o', '_', 'r', 'a', 't', 'e']);
    reveal_strlit("callsign");
    assert("callsign"@ =~= seq!['c', 'a', 'l', 'l', 's', 'i', 'g', 'n']);
    reveal_strlit("geom_rate");
    assert("geom_rate"@ =~= seq!['g', 'e', 'o', 'm', '_', 'r', 'a', 't', 'e']);
    reveal_strlit("gs");
    assert("gs"@ =~= seq!['g', 's']);
    reveal_strlit("lat");
    assert("lat"@ =~= seq!['l', 'a', 't']);
    reveal_strlit("lon");
    assert("lon"@ =~= seq!['l', 'o', 'n']);
    reveal_strlit("nac_p");
    assert("nac_p"@ =~= seq!['n', 'a', 'c', '_', 'p']);
    reveal_strlit("nac_v");
    assert("nac_v"@ =~= seq!['n', 'a', 'c', '_', 'v']);
    reveal_strlit("nic");
    assert("nic"@ =~= seq!['n', 'i', 'c']);
    reveal_strlit("rc");
    assert("rc"@ =~= seq!['r', 'c']);
    reveal_strlit("sil");
    assert("sil"@ =~= seq!['s', 'i', 'l']);
    reveal_strlit("sil_type");
    assert("sil_type"@ =~= seq!['s', 'i', 'l', '_', 't', 'y', 'p', 'e']);
    reveal_strlit("track");
    assert("track"@ =~= seq!['t', 'r', 'a', 'c', 'k']);
}

/// A text read as a field is the text that field serializes as.
pub proof fn lemma_tisb_field_text_round_trip(text: Seq<char>)
    ensures
        TiSB::from_wire_text(text) matches Some(value) ==> value.wire_text() == text,
{
}

/// Each JSON text of a field is read as the field the text names: the one
/// displayed with the matching human readable text.
pub proof fn lemma_tisb_field_texts_named(text: Seq<char>)
    ensures
        text == "baro_rate"@ ==> (TiSB::from_wire_text(text) matches Some(v) && v.display_text() == "Baro Rate"@),
        text == "callsign"@ ==> (TiSB::from_wire_text(text) matches Some(v) && v.display_text() == "Callsign"@),
        text == "altitude"@ ==> (TiSB::from_wire_text(text) matches Some(v) && v.display_text() == "Altitude"@),
        text == "alt_geom"@ ==> (TiSB::from_wire_text(text) matches Some(v) && v.display_text() == "Altitude Geometric"@),
        text == "gs"@ ==> (TiSB::from_wire_text(text) matches Some(v) && v.display_text() == "Ground Speed"@),
        text == "track"@ ==> (TiSB::from_wire_text(text) matches Some(v) && v.display_text() == "Track"@),
        text == "geom_rate"@ ==> (TiSB::from_wire_text(text) matches Some(v) && v.display_text() == "Geom Rate"@),
        text == "lat"@ ==> (TiSB::from_wire_text(text) matches Some(v) && v.display_text() == "Latitude"@),
        text == "lon"@ ==> (TiSB::from_wire_text(text) matches Some(v) && v.display_text() == "Longitude"@),
        text == "nic"@ ==> (TiSB::from_wire_text(text) matches Some(v) && v.display_text() == "NIC"@),
        text == "rc"@ ==> (TiSB::from_wire_text(text) matches Some(v) && v.display_text() == "RC"@),
        text == "nac_p"@ ==> (TiSB::from_wire_text(text) matches Some(v) && v.display_text() == "NACp"@),
        text == "nac_v"@ ==> (TiSB::from_wire_text(text) matches Some(v) && v.display_text() == "NACv"@),
        text == "sil"@ ==> (TiSB::from_wire_text(text) matches Some(v) && v.display_text() == "SIL"@),
        text == "sil_type"@ ==> (TiSB::from_wire_text(text) matches Some(v) && v.display_text() == "SIL Type"@),
        text == "None"@ ==> (TiSB::from_wire_text(text) matches Some(v) && v.display_text() == "None"@),
{
    reveal_strlit("baro_rate");
    assert("baro_rate"@ =~= seq!['b', 'a', 'r', 'o', '_', 'r', 'a', 't', 'e']);
    reveal_strlit("callsign");
    assert("callsign"@ =~= seq!['c', 'a', 'l', 'l', 's', 'i', 'g', 'n']);
    reveal_strlit("altitude");
    assert("altitude"@ =~= seq!['a', 'l', 't', 'i', 't', 'u', 'd', 'e']);
    reveal_strlit("alt_geom");
    assert("alt_geom"@ =~= seq!['a', 'l', 't', '_', 'g', 'e', 'o', 'm']);
    reveal_strlit("gs");
    assert("gs"@ =~= seq!['g', 's']);
    reveal_strlit("track");
    assert("track"@ =~= seq!['t', 'r', 'a', 'c', 'k']);
    reveal_strlit("geom_rate");
    assert("geom_rate"@ =~= seq!['g', 'e', 'o', 'm', '_', 'r', 'a', 't', 'e']);
    reveal_strlit("lat");
    assert("lat"@ =~= seq!['l', 'a', 't']);
    reveal_strlit("lon");
    assert("lon"@ =~= seq!['l', 'o', 'n']);
    reveal_strlit("nic");
    assert("nic"@ =~= seq!['n', 'i', 'c']);
    reveal_strlit("rc");
    assert("rc"@ =~= seq!['r', 'c']);
    reveal_strlit("nac_p");
    assert("nac_p"@ =~= seq!['n', 'a', 'c', '_', 'p']);
    reveal_strlit("nac_v");
    assert("nac_v"@ =~= seq!['n', 'a', 'c', '_', 'v']);
    reveal_strlit("sil");
    assert("sil"@ =~= seq!['s', 'i', 'l']);
    reveal_strlit("sil_type");
    assert("sil_type"@ =~= seq!['s', 'i', 'l', '_', 't', 'y', 'p', 'e']);
    reveal_strlit("None");
    assert("None"@ =~= seq!['N', 'o', 'n', 'e']);
    reveal_strlit("Baro Rate");
    assert("Baro Rate"@ =~= seq!['B', 'a', 'r', 'o', ' ', 'R', 'a', 't', 'e']);
    reveal_strlit("Callsign");
    assert("Callsign"@ =~= seq!['C', 'a', 'l', 'l', 's', 'i', 'g', 'n']);
    reveal_strlit("Altitude");
    assert("Altitude"@ =~= seq!['A', 'l', 't', 'i', 't', 'u', 'd', 'e']);
    reveal_strlit("Altitude Geometric");
    assert("Altitude Geometric"@ =~= seq!['A', 'l', 't', 'i', 't', 'u', 'd', 'e', ' ', 'G', 'e', 'o', 'm', 'e', 't', 'r', 'i', 'c']);
    reveal_strlit("Ground Speed");
    assert("Ground Speed"@ =~= seq!['G', 'r', 'o', 'u', 'n', 'd', ' ', 'S', 'p', 'e', 'e', 'd']);
    reveal_strlit("Track");
    assert("Track"@ =~= seq!['T', 'r', 'a', 'c', 'k']);
    reveal_strlit("Geom Rate");
    assert("Geom Rate"@ =~= seq!['G', 'e', 'o', 'm', ' ', 'R', 'a', 't', 'e']);
    reveal_strlit("Latitude");
    assert("Latitude"@ =~= seq!['L', 'a', 't', 'i', 't', 'u', 'd', 'e']);
    reveal_strlit("Longitude");
    assert("Longitude"@ =~= seq!['L', 'o', 'n', 'g', 'i', 't', 'u', 'd', 'e']);
    reveal_strlit("NIC");
    assert("NIC"@ =~= seq!['N', 'I', 'C']);
    reveal_strlit("RC");
    assert("RC"@ =~= seq!['R', 'C']);
    reveal_strlit("NACp");
    assert("NACp"@ =~= seq!['N', 'A', 'C', 'p']);
    reveal_strlit("NACv");
    assert("NACv"@ =~= seq!['N', 'A', 'C', 'v']);
    reveal_strlit("SIL");
    assert("SIL"@ =~= seq!['S', 'I', 'L']);
    reveal_strlit("SIL Type");
    assert("SIL Type"@ =~= seq!['S', 'I', 'L', ' ', 'T', 'y', 'p', 'e']);
}

} // verus!
