//! Type of the underlying messages / best source of current data for an
//! aircraft (`type` in aircraft.json).

use vstd::prelude::*;
use vstd::string::*;

use crate::decoders::helpers::strings::str_equals;

verus! {

#[derive(Debug, Clone, Copy, PartialEq, Eq, Structural, PartialOrd)]
pub enum MessageType {
    /// Messages from a Mode S or ADS-B transponder, using a 24-bit ICAO address.
    /// JSON text `adsb_icao`.
    ADSBICAO,
    /// Messages from an ADS-B equipped "non-transponder" emitter e.g. a ground vehicle, using a 24-bit ICAO address.
    /// JSON text `adsb_icao_nt`.
    ADSBICAONONTRANSPONDER,
    /// Rebroadcast of ADS-B messages originally sent via another data link e.g. UAT, using a 24-bit ICAO address.
    /// JSON text `adsr_icao`.
    ADSBICAOREBROADCAST,
    /// Traffic information about a non-ADS-B target identified by a 24-bit ICAO address, e.g. a Mode S target tracked by secondary radar.
    /// JSON text `tisb_icao`.
    ADSBICAOSECONDARYSURVEILLANCE,
    /// Received by monitoring satellite downlinks.
    /// JSON text `adsc`.
    ADSC,
    /// Position calculated from arrival time differences using multiple receivers.
    /// JSON text `mlat`.
    MLAT,
    /// Miscellaneous data received via Basestation / SBS format, quality / source is unknown.
    /// JSON text `other`.
    OTHER,
    /// Mode S data from the transponder (no position transmitted).
    /// JSON text `mode_s`.
    MODES,
    /// Messages from an ADS-B transponder using a non-ICAO address, e.g. anonymized address.
    /// JSON text `adsb_other`.
    ADSBOTHER,
    /// Rebroadcast of ADS-B messages originally sent via another data link e.g. UAT, using a non-ICAO address.
    /// JSON text `adsbr_other`.
    ADSBOTHERREBROADCAST,
    /// Traffic information about a non-ADS-B target using a non-ICAO address.
    /// JSON text `tisb_other`.
    ADSBOTHERSECONDARYSURVEILLANCE,
    /// Traffic information about a non-ADS-B target using a track/file identifier, typically from primary or Mode A/C radar.
    /// JSON text `tisb_trackfile`.
    ADSBTRACKFILE,
    /// Any other text.
    UNKNOWN,
}

impl Default for MessageType {
    fn default() -> (res: Self)
        ensures
            res == MessageType::UNKNOWN,
    {
        MessageType::UNKNOWN
    }
}

impl MessageType {
    /// The documented JSON text of a message type; `UNKNOWN` has none and
    /// stands for every other text.
    pub open spec fn json_text(self) -> Option<Seq<char>> {
        match self {
            MessageType::ADSBICAO => Some("adsb_icao"@),
            MessageType::ADSBICAONONTRANSPONDER => Some("adsb_icao_nt"@),
            MessageType::ADSBICAOREBROADCAST => Some("adsr_icao"@),
            MessageType::ADSBICAOSECONDARYSURVEILLANCE => Some("tisb_icao"@),
            MessageType::ADSC => Some("adsc"@),
            MessageType::MLAT => Some("mlat"@),
            MessageType::OTHER => Some("other"@),
            MessageType::MODES => Some("mode_s"@),
            MessageType::ADSBOTHER => Some("adsb_other"@),
            MessageType::ADSBOTHERREBROADCAST => Some("adsbr_other"@),
            MessageType::ADSBOTHERSECONDARYSURVEILLANCE => Some("tisb_other"@),
            MessageType::ADSBTRACKFILE => Some("tisb_trackfile"@),
            MessageType::UNKNOWN => None,
        }
    }

    /// The message type a text stands for.
    pub open spec fn from_wire_text(value: Seq<char>) -> MessageType {
        if value == "adsb_icao"@ {
            MessageType::ADSBICAO
        } else if value == "adsb_icao_nt"@ {
            MessageType::ADSBICAONONTRANSPONDER
        } else if value == "adsr_icao"@ {
            MessageType::ADSBICAOREBROADCAST
        } else if value == "tisb_icao"@ {
            MessageType::ADSBICAOSECONDARYSURVEILLANCE
        } else if value == "adsc"@ {
            MessageType::ADSC
        } else if value == "mlat"@ {
            MessageType::MLAT
        } else if value == "other"@ {
            MessageType::OTHER
        } else if value == "mode_s"@ {
            MessageType::MODES
        } else if value == "adsb_other"@ {
            MessageType::ADSBOTHER
        } else if value == "adsbr_other"@ {
            MessageType::ADSBOTHERREBROADCAST
        } else if value == "tisb_other"@ {
            MessageType::ADSBOTHERSECONDARYSURVEILLANCE
        } else if value == "tisb_trackfile"@ {
            MessageType::ADSBTRACKFILE
        } else {
            MessageType::UNKNOWN
        }
    }

    /// The human readable text of a message type.
    pub open spec fn display_text(self) -> Seq<char> {
        match self {
            MessageType::ADSBICAO => "ADSB, ICAO Address"@,
            MessageType::ADSBICAONONTRANSPONDER => "ADSB, ICAO Address, Non-Transponder"@,
            MessageType::ADSBICAOREBROADCAST => "ADSB, ICAO Address, Rebroadcast (eg UAT)"@,
            MessageType::ADSBICAOSECONDARYSURVEILLANCE => "ADSB, ICAO Address, Secondary Surveillance (\"TISB\")"@,
            MessageType::ADSC => "ADS-C"@,
            MessageType::MLAT => "MLAT"@,
            MessageType::OTHER => "Other"@,
            MessageType::MODES => "Mode S"@,
            MessageType::ADSBOTHER => "ADSB, Other Address"@,
            MessageType::ADSBOTHERREBROADCAST => "ADSB, Other Address, Rebroadcast (eg UAT)"@,
            MessageType::ADSBOTHERSECONDARYSURVEILLANCE => "ADSB, Other Address, Secondary Surveillance (\"TISB\")"@,
            MessageType::ADSBTRACKFILE => "ADSB, Track/File Identifier"@,
            MessageType::UNKNOWN => "Unknown"@,
        }
    }

    /// The human readable text of this message type.
    pub fn to_string(&self) -> (res: String)
        ensures
            res@ == self.display_text(),
    {
        match self {
            MessageType::ADSBICAO => String::from_str("ADSB, ICAO Address"),
            MessageType::ADSBICAONONTRANSPONDER => String::from_str("ADSB, ICAO Address, Non-Transponder"),
            MessageType::ADSBICAOREBROADCAST => String::from_str("ADSB, ICAO Address, Rebroadcast (eg UAT)"),
            MessageType::ADSBICAOSECONDARYSURVEILLANCE => String::from_str("ADSB, ICAO Address, Secondary Surveillance (\"TISB\")"),
            MessageType::ADSC => String::from_str("ADS-C"),
            MessageType::MLAT => String::from_str("MLAT"),
            MessageType::OTHER => String::from_str("Other"),
            MessageType::MODES => String::from_str("Mode S"),
            MessageType::ADSBOTHER => String::from_str("ADSB, Other Address"),
            MessageType::ADSBOTHERREBROADCAST => String::from_str("ADSB, Other Address, Rebroadcast (eg UAT)"),
            MessageType::ADSBOTHERSECONDARYSURVEILLANCE => String::from_str("ADSB, Other Address, Secondary Surveillance (\"TISB\")"),
            MessageType::ADSBTRACKFILE => String::from_str("ADSB, Track/File Identifier"),
            MessageType::UNKNOWN => String::from_str("Unknown"),
        }
    }
}

impl From<String> for MessageType {
    fn from(message_type: String) -> (res: Self)
        ensures
            res == MessageType::from_wire_text(message_type@),
    {
        let text = message_type.as_str();
        if str_equals(text, "adsb_icao") {
            MessageType::ADSBICAO
        } else if str_equals(text, "adsb_icao_nt") {
            MessageType::ADSBICAONONTRANSPONDER
        } else if str_equals(text, "adsr_icao") {
            MessageType::ADSBICAOREBROADCAST
        } else if str_equals(text, "tisb_icao") {
            MessageType::ADSBICAOSECONDARYSURVEILLANCE
        } else if str_equals(text, "adsc") {
            MessageType::ADSC
        } else if str_equals(text, "mlat") {
            MessageType::MLAT
        } else if str_equals(text, "other") {
            MessageType::OTHER
        } else if str_equals(text, "mode_s") {
            MessageType::MODES
        } else if str_equals(text, "adsb_other") {
            MessageType::ADSBOTHER
        } else if str_equals(text, "adsbr_other") {
            MessageType::ADSBOTHERREBROADCAST
        } else if str_equals(text, "tisb_other") {
            MessageType::ADSBOTHERSECONDARYSURVEILLANCE
        } else if str_equals(text, "tisb_trackfile") {
            MessageType::ADSBTRACKFILE
        } else {
            MessageType::UNKNOWN
        }
    }
}

impl vstd::std_specs::convert::FromSpecImpl<String> for MessageType {
    open spec fn obeys_from_spec() -> bool {
        true
    }

    open spec fn from_spec(message_type: String) -> Self {
        MessageType::from_wire_text(message_type@)
    }
}

/// Each documented JSON text is read as its message type, and a text read as
/// a known type is that type's documented text.
pub proof fn lemma_message_type_json_text(value: MessageType, text: Seq<char>)
    ensures
        value.json_text() matches Some(t) ==> MessageType::from_wire_text(t) == value,
        MessageType::from_wire_text(text) != MessageType::UNKNOWN ==> MessageType::from_wire_text(
            text,
        ).json_text() == Some(text),
{
    reveal_strlit("adsb_icao");
    assert("adsb_icao"@ =~= seq!['a', 'd', 's', 'b', '_', 'i', 'c', 'a', 'o']);
    reveal_strlit("adsb_icao_nt");
    assert("adsb_icao_nt"@ =~= seq!['a', 'd', 's', 'b', '_', 'i', 'c', 'a', 'o', '_', 'n', 't']);
    reveal_strlit("adsr_icao");
    assert("adsr_icao"@ =~= seq!['a', 'd', 's', 'r', '_', 'i', 'c', 'a', 'o']);
    reveal_strlit("tisb_icao");
    assert("tisb_icao"@ =~= seq!['t', 'i', 's', 'b', '_', 'i', 'c', 'a', 'o']);
    reveal_strlit("adsc");
    assert("adsc"@ =~= seq!['a', 'd', 's', 'c']);
    reveal_strlit("mlat");
    assert("mlat"@ =~= seq!['m', 'l', 'a', 't']);
    reveal_strlit("other");
    assert("other"@ =~= seq!['o', 't', 'h', 'e', 'r']);
    reveal_strlit("mode_s");
    assert("mode_s"@ =~= seq!['m', 'o', 'd', 'e', '_', 's']);
    reveal_strlit("adsb_other");
    assert("adsb_other"@ =~= seq!['a', 'd', 's', 'b', '_', 'o', 't', 'h', 'e', 'r']);
    reveal_strlit("adsbr_other");
    assert("adsbr_other"@ =~= seq!['a', 'd', 's', 'b', 'r', '_', 'o', 't', 'h', 'e', 'r']);
    reveal_strlit("tisb_other");
    assert("tisb_other"@ =~= seq!['t', 'i', 's', 'b', '_', 'o', 't', 'h', 'e', 'r']);
    reveal_strlit("tisb_trackfile");
    assert("tisb_trackfile"@ =~= seq!['t', 'i', 's', 'b', '_', 't', 'r', 'a', 'c', 'k', 'f', 'i', 'l', 'e']);
}

/// Each JSON text of a message type is read as the message type the text names: the one
/// displayed with the matching human readable text.
pub proof fn lemma_message_type_texts_named(text: Seq<char>)
    ensures
        text == "adsb_icao"@ ==> MessageType::from_wire_text(text).display_text() == "ADSB, ICAO Address"@,
        text == "adsb_icao_nt"@ ==> MessageType::from_wire_text(text).display_text() == "ADSB, ICAO Address, Non-Transponder"@,
        text == "adsr_icao"@ ==> MessageType::from_wire_text(text).display_text() == "ADSB, ICAO Address, Rebroadcast (eg UAT)"@,
        text == "tisb_icao"@ ==> MessageType::from_wire_text(text).display_text() == "ADSB, ICAO Address, Secondary Surveillance (\"TISB\")"@,
        text == "adsc"@ ==> MessageType::from_wire_text(text).display_text() == "ADS-C"@,
        text == "mlat"@ ==> MessageType::from_wire_text(text).display_text() == "MLAT"@,
        text == "other"@ ==> MessageType::from_wire_text(text).display_text() == "Other"@,
        text == "mode_s"@ ==> MessageType::from_wire_text(text).display_text() == "Mode S"@,
        text == "adsb_other"@ ==> MessageType::from_wire_text(text).display_text() == "ADSB, Other Address"@,
        text == "adsbr_other"@ ==> MessageType::from_wire_text(text).display_text() == "ADSB, Other Address, Rebroadcast (eg UAT)"@,
        text == "tisb_other"@ ==> MessageType::from_wire_text(text).display_text() == "ADSB, Other Address, Secondary Surveillance (\"TISB\")"@,
        text == "tisb_trackfile"@ ==> MessageType::from_wire_text(text).display_text() == "ADSB, Track/File Identifier"@,
        text != "adsb_icao"@ && text != "adsb_icao_nt"@ && text != "adsr_icao"@ && text != "tisb_icao"@ && text != "adsc"@ && text != "mlat"@ && text != "other"@ && text != "mode_s"@ && text != "adsb_other"@ && text != "adsbr_other"@ && text != "tisb_other"@ && text != "tisb_trackfile"@ ==> MessageType::from_wire_text(text).display_text() == "Unknown"@,
{
    reveal_strlit("adsb_icao");
    assert("adsb_icao"@ =~= seq!['a', 'd', 's', 'b', '_', 'i', 'c', 'a', 'o']);
    reveal_strlit("adsb_icao_nt");
    assert("adsb_icao_nt"@ =~= seq!['a', 'd', 's', 'b', '_', 'i', 'c', 'a', 'o', '_', 'n', 't']);
    reveal_strlit("adsr_icao");
    assert("adsr_icao"@ =~= seq!['a', 'd', 's', 'r', '_', 'i', 'c', 'a', 'o']);
    reveal_strlit("tisb_icao");
    assert("tisb_icao"@ =~= seq!['t', 'i', 's', 'b', '_', 'i', 'c', 'a', 'o']);
    reveal_strlit("adsc");
    assert("adsc"@ =~= seq!['a', 'd', 's', 'c']);
    reveal_strlit("mlat");
    assert("mlat"@ =~= seq!['m', 'l', 'a', 't']);
    reveal_strlit("other");
    assert("other"@ =~= seq!['o', 't', 'h', 'e', 'r']);
    reveal_strlit("mode_s");
    assert("mode_s"@ =~= seq!['m', 'o', 'd', 'e', '_', 's']);
    reveal_strlit("adsb_other");
    assert("adsb_other"@ =~= seq!['a', 'd', 's', 'b', '_', 'o', 't', 'h', 'e', 'r']);
    reveal_strlit("adsbr_other");
    assert("adsbr_other"@ =~= seq!['a', 'd', 's', 'b', 'r', '_', 'o', 't', 'h', 'e', 'r']);
    reveal_strlit("tisb_other");
    assert("tisb_other"@ =~= seq!['t', 'i', 's', 'b', '_', 'o', 't', 'h', 'e', 'r']);
    reveal_strlit("tisb_trackfile");
    assert("tisb_trackfile"@ =~= seq!['t', 'i', 's', 'b', '_', 't', 'r', 'a', 'c', 'k', 'f', 'i', 'l', 'e']);
    reveal_strlit("ADSB, ICAO Address");
    assert("ADSB, ICAO Address"@ =~= seq!['A', 'D', 'S', 'B', ',', ' ', 'I', 'C', 'A', 'O', ' ', 'A', 'd', 'd', 'r', 'e', 's', 's']);
    reveal_strlit("ADSB, ICAO Address, Non-Transponder");
    assert("ADSB, ICAO Address, Non-Transponder"@ =~= seq!['A', 'D', 'S', 'B', ',', ' ', 'I', 'C', 'A', 'O', ' ', 'A', 'd', 'd', 'r', 'e', 's', 's', ',', ' ', 'N', 'o', 'n', '-', 'T', 'r', 'a', 'n', 's', 'p', 'o', 'n', 'd', 'e', 'r']);
    reveal_strlit("ADSB, ICAO Address, Rebroadcast (eg UAT)");
    assert("ADSB, ICAO Address, Rebroadcast (eg UAT)"@ =~= seq!['A', 'D', 'S', 'B', ',', ' ', 'I', 'C', 'A', 'O', ' ', 'A', 'd', 'd', 'r', 'e', 's', 's', ',', ' ', 'R', 'e', 'b', 'r', 'o', 'a', 'd', 'c', 'a', 's', 't', ' ', '(', 'e', 'g', ' ', 'U', 'A', 'T', ')']);
    reveal_strlit("ADSB, ICAO Address, Secondary Surveillance (\"TISB\")");
    assert("ADSB, ICAO Address, Secondary Surveillance (\"TISB\")"@ =~= seq!['A', 'D', 'S', 'B', ',', ' ', 'I', 'C', 'A', 'O', ' ', 'A', 'd', 'd', 'r', 'e', 's', 's', ',', ' ', 'S', 'e', 'c', 'o', 'n', 'd', 'a', 'r', 'y', ' ', 'S', 'u', 'r', 'v', 'e', 'i', 'l', 'l', 'a', 'n', 'c', 'e', ' ', '(', '"', 'T', 'I', 'S', 'B', '"', ')']);
    reveal_strlit("ADS-C");
    assert("ADS-C"@ =~= seq!['A', 'D', 'S', '-', 'C']);
    reveal_strlit("MLAT");
    assert("MLAT"@ =~= seq!['M', 'L', 'A', 'T']);
    reveal_strlit("Other");
    assert("Other"@ =~= seq!['O', 't', 'h', 'e', 'r']);
    reveal_strlit("Mode S");
    assert("Mode S"@ =~= seq!['M', 'o', 'd', 'e', ' ', 'S']);
    reveal_strlit("ADSB, Other Address");
    assert("ADSB, Other Address"@ =~= seq!['A', 'D', 'S', 'B', ',', ' ', 'O', 't', 'h', 'e', 'r', ' ', 'A', 'd', 'd', 'r', 'e', 's', 's']);
    reveal_strlit("ADSB, Other Address, Rebroadcast (eg UAT)");
    assert("ADSB, Other Address, Rebroadcast (eg UAT)"@ =~= seq!['A', 'D', 'S', 'B', ',', ' ', 'O', 't', 'h', 'e', 'r', ' ', 'A', 'd', 'd', 'r', 'e', 's', 's', ',', ' ', 'R', 'e', 'b', 'r', 'o', 'a', 'd', 'c', 'a', 's', 't', ' ', '(', 'e', 'g', ' ', 'U', 'A', 'T', ')']);
    reveal_strlit("ADSB, Other Address, Secondary Surveillance (\"TISB\")");
    assert("ADSB, Other Address, Secondary Surveillance (\"TISB\")"@ =~= seq!['A', 'D', 'S', 'B', ',', ' ', 'O', 't', 'h', 'e', 'r', ' ', 'A', 'd', 'd', 'r', 'e', 's', 's', ',', ' ', 'S', 'e', 'c', 'o', 'n', 'd', 'a', 'r', 'y', ' ', 'S', 'u', 'r', 'v', 'e', 'i', 'l', 'l', 'a', 'n', 'c', 'e', ' ', '(', '"', 'T', 'I', 'S', 'B', '"', ')']);
    reveal_strlit("ADSB, Track/File Identifier");
    assert("ADSB, Track/File Identifier"@ =~= seq!['A', 'D', 'S', 'B', ',', ' ', 'T', 'r', 'a', 'c', 'k', '/', 'F', 'i', 'l', 'e', ' ', 'I', 'd', 'e', 'n', 't', 'i', 'f', 'i', 'e', 'r']);
    reveal_strlit("Unknown");
    assert("Unknown"@ =~= seq!['U', 'n', 'k', 'n', 'o', 'w', 'n']);
}

} // verus!
