//! Emitter category of an aircraft or vehicle (`category` in aircraft.json),
//! see https://www.adsbexchange.com/emitter-category-ads-b-do-260b-2-2-3-2-5-2/

use vstd::prelude::*;
use vstd::string::*;

use crate::decoders::helpers::strings::{decimal_digits, digit_char, push_char, push_decimal};
use crate::decoders::raw_types::typecoding::TypeCoding;
use crate::decoders::helpers::strings::str_equals;

verus! {

#[derive(Debug, Clone, Copy, PartialEq, Eq, Structural, PartialOrd)]
pub enum EmitterCategory {
    A0,
    A1,
    A2,
    A3,
    A4,
    A5,
    A6,
    A7,
    B0,
    B1,
    B2,
    B3,
    B4,
    B5,
    B6,
    B7,
    C0,
    C1,
    C2,
    C3,
    C4,
    C5,
    C6,
    C7,
    D0,
    D1,
    D2,
    D3,
    D4,
    D5,
    D6,
    D7,
}

impl Default for EmitterCategory {
    fn default() -> (res: Self)
        ensures
            res == EmitterCategory::A0,
    {
        EmitterCategory::A0
    }
}

impl EmitterCategory {
    /// The text a category is serialized as.
    pub open spec fn wire_text(self) -> Seq<char> {
        match self {
            EmitterCategory::A0 => "A0"@,
            EmitterCategory::A1 => "A1"@,
            EmitterCategory::A2 => "A2"@,
            EmitterCategory::A3 => "A3"@,
            EmitterCategory::A4 => "A4"@,
            EmitterCategory::A5 => "A5"@,
            EmitterCategory::A6 => "A6"@,
            EmitterCategory::A7 => "A7"@,
            EmitterCategory::B0 => "B0"@,
            EmitterCategory::B1 => "B1"@,
            EmitterCategory::B2 => "B2"@,
            EmitterCategory::B3 => "B3"@,
            EmitterCategory::B4 => "B4"@,
            EmitterCategory::B5 => "B5"@,
            EmitterCategory::B6 => "B6"@,
            EmitterCategory::B7 => "B7"@,
            EmitterCategory::C0 => "C0"@,
            EmitterCategory::C1 => "C1"@,
            EmitterCategory::C2 => "C2"@,
            EmitterCategory::C3 => "C3"@,
            EmitterCategory::C4 => "C4"@,
            EmitterCategory::C5 => "C5"@,
            EmitterCategory::C6 => "C6"@,
            EmitterCategory::C7 => "C7"@,
            EmitterCategory::D0 => "D0"@,
            EmitterCategory::D1 => "D1"@,
            EmitterCategory::D2 => "D2"@,
            EmitterCategory::D3 => "D3"@,
            EmitterCategory::D4 => "D4"@,
            EmitterCategory::D5 => "D5"@,
            EmitterCategory::D6 => "D6"@,
            EmitterCategory::D7 => "D7"@,
        }
    }

    /// The category a serialized text stands for, if any.
    pub open spec fn from_wire_text(value: Seq<char>) -> Option<EmitterCategory> {
        if value == "A0"@ {
            Some(EmitterCategory::A0)
        } else if value == "A1"@ {
            Some(EmitterCategory::A1)
        } else if value == "A2"@ {
            Some(EmitterCategory::A2)
        } else if value == "A3"@ {
            Some(EmitterCategory::A3)
        } else if value == "A4"@ {
            Some(EmitterCategory::A4)
        } else if value == "A5"@ {
            Some(EmitterCategory::A5)
        } else if value == "A6"@ {
            Some(EmitterCategory::A6)
        } else if value == "A7"@ {
            Some(EmitterCategory::A7)
        } else if value == "B0"@ {
            Some(EmitterCategory::B0)
        } else if value == "B1"@ {
            Some(EmitterCategory::B1)
        } else if value == "B2"@ {
            Some(EmitterCategory::B2)
        } else if value == "B3"@ {
            Some(EmitterCategory::B3)
        } else if value == "B4"@ {
            Some(EmitterCategory::B4)
        } else if value == "B5"@ {
            Some(EmitterCategory::B5)
        } else if value == "B6"@ {
            Some(EmitterCategory::B6)
        } else if value == "B7"@ {
            Some(EmitterCategory::B7)
        } else if value == "C0"@ {
            Some(EmitterCategory::C0)
        } else if value == "C1"@ {
            Some(EmitterCategory::C1)
        } else if value == "C2"@ {
            Some(EmitterCategory::C2)
        } else if value == "C3"@ {
            Some(EmitterCategory::C3)
        } else if value == "C4"@ {
            Some(EmitterCategory::C4)
        } else if value == "C5"@ {
            Some(EmitterCategory::C5)
        } else if value == "C6"@ {
            Some(EmitterCategory::C6)
        } else if value == "C7"@ {
            Some(EmitterCategory::C7)
        } else if value == "D0"@ {
            Some(EmitterCategory::D0)
        } else if value == "D1"@ {
            Some(EmitterCategory::D1)
        } else if value == "D2"@ {
            Some(EmitterCategory::D2)
        } else if value == "D3"@ {
            Some(EmitterCategory::D3)
        } else if value == "D4"@ {
            Some(EmitterCategory::D4)
        } else if value == "D5"@ {
            Some(EmitterCategory::D5)
        } else if value == "D6"@ {
            Some(EmitterCategory::D6)
        } else if value == "D7"@ {
            Some(EmitterCategory::D7)
        } else {
            None
        }
    }

    /// The human readable text of a category.
    pub open spec fn display_text(self) -> Seq<char> {
        match self {
            EmitterCategory::A0 => "A0 : No ADS-B information"@,
            EmitterCategory::A1 => "A1 : Light (< 15500 lbs)"@,
            EmitterCategory::A2 => "A2 : Small (15500 to 75000 lbs)"@,
            EmitterCategory::A3 => "A3 : Large (75000 to 300000 lbs)"@,
            EmitterCategory::A4 => "A4 : High vortex large"@,
            EmitterCategory::A5 => "A5 : Heavy (> 300000 lbs) "@,
            EmitterCategory::A6 => "A6 : High performance"@,
            EmitterCategory::A7 => "A7 : Rotorcraft"@,
            EmitterCategory::B0 => "B0 : No ADS-B information"@,
            EmitterCategory::B1 => "B1 : Glider / sailplane"@,
            EmitterCategory::B2 => "B2 : Lighter-than-air"@,
            EmitterCategory::B3 => "B3 : Parachutist / skydiver"@,
            EmitterCategory::B4 => "B4 : Ultralight / hang-glider / paraglider"@,
            EmitterCategory::B5 => "B5 : Reserved"@,
            EmitterCategory::B6 => "B6 : Unmanned Aerial Vehicle"@,
            EmitterCategory::B7 => "B7 : Space / trans-atmospheric vehicle"@,
            EmitterCategory::C0 => "C0 : No ADS-B information"@,
            EmitterCategory::C1 => "C1 : Surface vehicle - emergency vehicle"@,
            EmitterCategory::C2 => "C2 : Surface vehicle - service vehicle"@,
            EmitterCategory::C3 => "C3 : Point obstacle (includes tethered balloons)"@,
            EmitterCategory::C4 => "C4 : Cluster obstacle"@,
            EmitterCategory::C5 => "C5 : Line obstacle"@,
            EmitterCategory::C6 => "C6: Reserved"@,
            EmitterCategory::C7 => "C7: Reserved"@,
            EmitterCategory::D0 => "D0 : Reserved/No ADS-B information"@,
            EmitterCategory::D1 => "D1 : Reserved"@,
            EmitterCategory::D2 => "D2 : Reserved"@,
            EmitterCategory::D3 => "D3 : Reserved"@,
            EmitterCategory::D4 => "D4 : Reserved"@,
            EmitterCategory::D5 => "D5 : Reserved"@,
            EmitterCategory::D6 => "D6 : Reserved"@,
            EmitterCategory::D7 => "D7 : Reserved"@,
        }
    }

    /// The text this category is serialized as.
    pub fn serialize(&self) -> (res: String)
        ensures
            res@ == self.wire_text(),
    {
        match self {
            EmitterCategory::A0 => String::from_str("A0"),
            EmitterCategory::A1 => String::from_str("A1"),
            EmitterCategory::A2 => String::from_str("A2"),
            EmitterCategory::A3 => String::from_str("A3"),
            EmitterCategory::A4 => String::from_str("A4"),
            EmitterCategory::A5 => String::from_str("A5"),
            EmitterCategory::A6 => String::from_str("A6"),
            EmitterCategory::A7 => String::from_str("A7"),
            EmitterCategory::B0 => String::from_str("B0"),
            EmitterCategory::B1 => String::from_str("B1"),
            EmitterCategory::B2 => String::from_str("B2"),
            EmitterCategory::B3 => String::from_str("B3"),
            EmitterCategory::B4 => String::from_str("B4"),
            EmitterCategory::B5 => String::from_str("B5"),
            EmitterCategory::B6 => String::from_str("B6"),
            EmitterCategory::B7 => String::from_str("B7"),
            EmitterCategory::C0 => String::from_str("C0"),
            EmitterCategory::C1 => String::from_str("C1"),
            EmitterCategory::C2 => String::from_str("C2"),
            EmitterCategory::C3 => String::from_str("C3"),
            EmitterCategory::C4 => String::from_str("C4"),
            EmitterCategory::C5 => String::from_str("C5"),
            EmitterCategory::C6 => String::from_str("C6"),
            EmitterCategory::C7 => String::from_str("C7"),
            EmitterCategory::D0 => String::from_str("D0"),
            EmitterCategory::D1 => String::from_str("D1"),
            EmitterCategory::D2 => String::from_str("D2"),
            EmitterCategory::D3 => String::from_str("D3"),
            EmitterCategory::D4 => String::from_str("D4"),
            EmitterCategory::D5 => String::from_str("D5"),
            EmitterCategory::D6 => String::from_str("D6"),
            EmitterCategory::D7 => String::from_str("D7"),
        }
    }

    /// The human readable text of this category.
    pub fn to_string(&self) -> (res: String)
        ensures
            res@ == self.display_text(),
    {
        match self {
            EmitterCategory::A0 => String::from_str("A0 : No ADS-B information"),
            EmitterCategory::A1 => String::from_str("A1 : Light (< 15500 lbs)"),
            EmitterCategory::A2 => String::from_str("A2 : Small (15500 to 75000 lbs)"),
            EmitterCategory::A3 => String::from_str("A3 : Large (75000 to 300000 lbs)"),
            EmitterCategory::A4 => String::from_str("A4 : High vortex large"),
            EmitterCategory::A5 => String::from_str("A5 : Heavy (> 300000 lbs) "),
            EmitterCategory::A6 => String::from_str("A6 : High performance"),
            EmitterCategory::A7 => String::from_str("A7 : Rotorcraft"),
            EmitterCategory::B0 => String::from_str("B0 : No ADS-B information"),
            EmitterCategory::B1 => String::from_str("B1 : Glider / sailplane"),
            EmitterCategory::B2 => String::from_str("B2 : Lighter-than-air"),
            EmitterCategory::B3 => String::from_str("B3 : Parachutist / skydiver"),
            EmitterCategory::B4 => String::from_str("B4 : Ultralight / hang-glider / paraglider"),
            EmitterCategory::B5 => String::from_str("B5 : Reserved"),
            EmitterCategory::B6 => String::from_str("B6 : Unmanned Aerial Vehicle"),
            EmitterCategory::B7 => String::from_str("B7 : Space / trans-atmospheric vehicle"),
            EmitterCategory::C0 => String::from_str("C0 : No ADS-B information"),
            EmitterCategory::C1 => String::from_str("C1 : Surface vehicle - emergency vehicle"),
            EmitterCategory::C2 => String::from_str("C2 : Surface vehicle - service vehicle"),
            EmitterCategory::C3 => String::from_str("C3 : Point obstacle (includes tethered balloons)"),
            EmitterCategory::C4 => String::from_str("C4 : Cluster obstacle"),
            EmitterCategory::C5 => String::from_str("C5 : Line obstacle"),
            EmitterCategory::C6 => String::from_str("C6: Reserved"),
            EmitterCategory::C7 => String::from_str("C7: Reserved"),
            EmitterCategory::D0 => String::from_str("D0 : Reserved/No ADS-B information"),
            EmitterCategory::D1 => String::from_str("D1 : Reserved"),
            EmitterCategory::D2 => String::from_str("D2 : Reserved"),
            EmitterCategory::D3 => String::from_str("D3 : Reserved"),
            EmitterCategory::D4 => String::from_str("D4 : Reserved"),
            EmitterCategory::D5 => String::from_str("D5 : Reserved"),
            EmitterCategory::D6 => String::from_str("D6 : Reserved"),
            EmitterCategory::D7 => String::from_str("D7 : Reserved"),
        }
    }

    /// The category a type coding set and a category number select, if the
    /// number is one of 0 to 7.
    pub open spec fn from_type_coding(tc: TypeCoding, ca: u8) -> Option<EmitterCategory> {
        match tc {
            TypeCoding::A => {
                if ca == 0 {
                    Some(EmitterCategory::A0)
                } else if ca == 1 {
                    Some(EmitterCategory::A1)
                } else if ca == 2 {
                    Some(EmitterCategory::A2)
                } else if ca == 3 {
                    Some(EmitterCategory::A3)
                } else if ca == 4 {
                    Some(EmitterCategory::A4)
                } else if ca == 5 {
                    Some(EmitterCategory::A5)
                } else if ca == 6 {
                    Some(EmitterCategory::A6)
                } else if ca == 7 {
                    Some(EmitterCategory::A7)
                } else {
                    None
                }
            },
            TypeCoding::B => {
                if ca == 0 {
                    Some(EmitterCategory::B0)
                } else if ca == 1 {
                    Some(EmitterCategory::B1)
                } else if ca == 2 {
                    Some(EmitterCategory::B2)
                } else if ca == 3 {
                    Some(EmitterCategory::B3)
                } else if ca == 4 {
                    Some(EmitterCategory::B4)
                } else if ca == 5 {
                    Some(EmitterCategory::B5)
                } else if ca == 6 {
                    Some(EmitterCategory::B6)
                } else if ca == 7 {
                    Some(EmitterCategory::B7)
                } else {
                    None
                }
            },
            TypeCoding::C => {
                if ca == 0 {
                    Some(EmitterCategory::C0)
                } else if ca == 1 {
                    Some(EmitterCategory::C1)
                } else if ca == 2 {
                    Some(EmitterCategory::C2)
                } else if ca == 3 {
                    Some(EmitterCategory::C3)
                } else if ca == 4 {
                    Some(EmitterCategory::C4)
                } else if ca == 5 {
                    Some(EmitterCategory::C5)
                } else if ca == 6 {
                    Some(EmitterCategory::C6)
                } else if ca == 7 {
                    Some(EmitterCategory::C7)
                } else {
                    None
                }
            },
            TypeCoding::D => {
                if ca == 0 {
                    Some(EmitterCategory::D0)
                } else if ca == 1 {
                    Some(EmitterCategory::D1)
                } else if ca == 2 {
                    Some(EmitterCategory::D2)
                } else if ca == 3 {
                    Some(EmitterCategory::D3)
                } else if ca == 4 {
                    Some(EmitterCategory::D4)
                } else if ca == 5 {
                    Some(EmitterCategory::D5)
                } else if ca == 6 {
                    Some(EmitterCategory::D6)
                } else if ca == 7 {
                    Some(EmitterCategory::D7)
                } else {
                    None
                }
            },
        }
    }

    /// The category of a type coding set and a category number (0 to 7).
    pub fn new(tc: TypeCoding, ca: u8) -> (res: Result<Self, String>)
        ensures
            match EmitterCategory::from_type_coding(tc, ca) {
                Some(category) => res == Ok::<EmitterCategory, String>(category),
                None => res matches Err(message) && message@ == "Invalid emitter category: "@
                    + seq![tc.letter()] + decimal_digits(ca as nat),
            },
    {
        match tc {
            TypeCoding::A => match ca {
                0 => Ok(EmitterCategory::A0),
                1 => Ok(EmitterCategory::A1),
                2 => Ok(EmitterCategory::A2),
                3 => Ok(EmitterCategory::A3),
                4 => Ok(EmitterCategory::A4),
                5 => Ok(EmitterCategory::A5),
                6 => Ok(EmitterCategory::A6),
                7 => Ok(EmitterCategory::A7),
                _ => Err(invalid_category_message('A', ca)),
            },
            TypeCoding::B => match ca {
                0 => Ok(EmitterCategory::B0),
                1 => Ok(EmitterCategory::B1),
                2 => Ok(EmitterCategory::B2),
                3 => Ok(EmitterCategory::B3),
                4 => Ok(EmitterCategory::B4),
                5 => Ok(EmitterCategory::B5),
                6 => Ok(EmitterCategory::B6),
                7 => Ok(EmitterCategory::B7),
                _ => Err(invalid_category_message('B', ca)),
            },
            TypeCoding::C => match ca {
                0 => Ok(EmitterCategory::C0),
                1 => Ok(EmitterCategory::C1),
                2 => Ok(EmitterCategory::C2),
                3 => Ok(EmitterCategory::C3),
                4 => Ok(EmitterCategory::C4),
                5 => Ok(EmitterCategory::C5),
                6 => Ok(EmitterCategory::C6),
                7 => Ok(EmitterCategory::C7),
                _ => Err(invalid_category_message('C', ca)),
            },
            TypeCoding::D => match ca {
                0 => Ok(EmitterCategory::D0),
                1 => Ok(EmitterCategory::D1),
                2 => Ok(EmitterCategory::D2),
                3 => Ok(EmitterCategory::D3),
                4 => Ok(EmitterCategory::D4),
                5 => Ok(EmitterCategory::D5),
                6 => Ok(EmitterCategory::D6),
                7 => Ok(EmitterCategory::D7),
                _ => Err(invalid_category_message('D', ca)),
            },
        }
    }
}

impl TryFrom<String> for EmitterCategory {
    type Error = String;

    fn try_from(emitter_category: String) -> (res: Result<Self, Self::Error>)
        ensures
            match EmitterCategory::from_wire_text(emitter_category@) {
                Some(value) => res == Ok::<EmitterCategory, String>(value),
                None => res matches Err(message) && message@ == "Invalid emitter category: "@ + emitter_category@,
            },
    {
        let text = emitter_category.as_str();
        if str_equals(text, "A0") {
            Ok(EmitterCategory::A0)
        } else if str_equals(text, "A1") {
            Ok(EmitterCategory::A1)
        } else if str_equals(text, "A2") {
            Ok(EmitterCategory::A2)
        } else if str_equals(text, "A3") {
            Ok(EmitterCategory::A3)
        } else if str_equals(text, "A4") {
            Ok(EmitterCategory::A4)
        } else if str_equals(text, "A5") {
            Ok(EmitterCategory::A5)
        } else if str_equals(text, "A6") {
            Ok(EmitterCategory::A6)
        } else if str_equals(text, "A7") {
            Ok(EmitterCategory::A7)
        } else if str_equals(text, "B0") {
            Ok(EmitterCategory::B0)
        } else if str_equals(text, "B1") {
            Ok(EmitterCategory::B1)
        } else if str_equals(text, "B2") {
            Ok(EmitterCategory::B2)
        } else if str_equals(text, "B3") {
            Ok(EmitterCategory::B3)
        } else if str_equals(text, "B4") {
            Ok(EmitterCategory::B4)
        } else if str_equals(text, "B5") {
            Ok(EmitterCategory::B5)
        } else if str_equals(text, "B6") {
            Ok(EmitterCategory::B6)
        } else if str_equals(text, "B7") {
            Ok(EmitterCategory::B7)
        } else if str_equals(text, "C0") {
            Ok(EmitterCategory::C0)
        } else if str_equals(text, "C1") {
            Ok(EmitterCategory::C1)
        } else if str_equals(text, "C2") {
            Ok(EmitterCategory::C2)
        } else if str_equals(text, "C3") {
            Ok(EmitterCategory::C3)
        } else if str_equals(text, "C4") {
            Ok(EmitterCategory::C4)
        } else if str_equals(text, "C5") {
            Ok(EmitterCategory::C5)
        } else if str_equals(text, "C6") {
            Ok(EmitterCategory::C6)
        } else if str_equals(text, "C7") {
            Ok(EmitterCategory::C7)
        } else if str_equals(text, "D0") {
            Ok(EmitterCategory::D0)
        } else if str_equals(text, "D1") {
            Ok(EmitterCategory::D1)
        } else if str_equals(text, "D2") {
            Ok(EmitterCategory::D2)
        } else if str_equals(text, "D3") {
            Ok(EmitterCategory::D3)
        } else if str_equals(text, "D4") {
            Ok(EmitterCategory::D4)
        } else if str_equals(text, "D5") {
            Ok(EmitterCategory::D5)
        } else if str_equals(text, "D6") {
            Ok(EmitterCategory::D6)
        } else if str_equals(text, "D7") {
            Ok(EmitterCategory::D7)
        } else {
            let mut message = String::from_str("Invalid emitter category: ");
            message.append(text);
            Err(message)
        }
    }
}

impl vstd::std_specs::convert::TryFromSpecImpl<String> for EmitterCategory {
    /// The error for a refused text is a message, which no spec value can
    /// carry; `try_from` states its exact result itself.
    open spec fn obeys_try_from_spec() -> bool {
        false
    }

    open spec fn try_from_spec(value: String) -> Result<Self, String> {
        arbitrary()
    }
}

/// The characters of every category's serialized text.
proof fn lemma_wire_text_spelling()
    ensures
        "A0"@ == seq!['A', '0'],
        "A1"@ == seq!['A', '1'],
        "A2"@ == seq!['A', '2'],
        "A3"@ == seq!['A', '3'],
        "A4"@ == seq!['A', '4'],
        "A5"@ == seq!['A', '5'],
        "A6"@ == seq!['A', '6'],
        "A7"@ == seq!['A', '7'],
        "B0"@ == seq!['B', '0'],
        "B1"@ == seq!['B', '1'],
        "B2"@ == seq!['B', '2'],
        "B3"@ == seq!['B', '3'],
        "B4"@ == seq!['B', '4'],
        "B5"@ == seq!['B', '5'],
        "B6"@ == seq!['B', '6'],
        "B7"@ == seq!['B', '7'],
        "C0"@ == seq!['C', '0'],
        "C1"@ == seq!['C', '1'],
        "C2"@ == seq!['C', '2'],
        "C3"@ == seq!['C', '3'],
        "C4"@ == seq!['C', '4'],
        "C5"@ == seq!['C', '5'],
        "C6"@ == seq!['C', '6'],
        "C7"@ == seq!['C', '7'],
        "D0"@ == seq!['D', '0'],
        "D1"@ == seq!['D', '1'],
        "D2"@ == seq!['D', '2'],
        "D3"@ == seq!['D', '3'],
        "D4"@ == seq!['D', '4'],
        "D5"@ == seq!['D', '5'],
        "D6"@ == seq!['D', '6'],
        "D7"@ == seq!['D', '7'],
{
    reveal_strlit("A0");
    reveal_strlit("A1");
    reveal_strlit("A2");
    reveal_strlit("A3");
    reveal_strlit("A4");
    reveal_strlit("A5");
    reveal_strlit("A6");
    reveal_strlit("A7");
    reveal_strlit("B0");
    reveal_strlit("B1");
    reveal_strlit("B2");
    reveal_strlit("B3");
    reveal_strlit("B4");
    reveal_strlit("B5");
    reveal_strlit("B6");
    reveal_strlit("B7");
    reveal_strlit("C0");
    reveal_strlit("C1");
    reveal_strlit("C2");
    reveal_strlit("C3");
    reveal_strlit("C4");
    reveal_strlit("C5");
    reveal_strlit("C6");
    reveal_strlit("C7");
    reveal_strlit("D0");
    reveal_strlit("D1");
    reveal_strlit("D2");
    reveal_strlit("D3");
    reveal_strlit("D4");
    reveal_strlit("D5");
    reveal_strlit("D6");
    reveal_strlit("D7");
}

/// A category is named by its set letter and number: its display text starts
/// with them, its serialized text is exactly them, and the category a type
/// coding set and a number 0 to 7 select is the one named by the set's letter
/// and that number (any other number selects none).
pub proof fn lemma_emitter_category_named(value: EmitterCategory, tc: TypeCoding, ca: u8)
    ensures
        value.display_text().len() >= 2,
        value.wire_text() == value.display_text().subrange(0, 2),
        (ca <= 7) == (EmitterCategory::from_type_coding(tc, ca) is Some),
        EmitterCategory::from_type_coding(tc, ca) matches Some(c) ==> c.display_text().subrange(0, 2)
            == seq![tc.letter(), digit_char(ca as nat)],
{
    lemma_wire_text_spelling();
    reveal_strlit("A0 : No ADS-B information");
    assert("A0 : No ADS-B information"@ =~= seq!['A', '0', ' ', ':', ' ', 'N', 'o', ' ', 'A', 'D', 'S', '-', 'B', ' ', 'i', 'n', 'f', 'o', 'r', 'm', 'a', 't', 'i', 'o', 'n']);
    reveal_strlit("A1 : Light (< 15500 lbs)");
    assert("A1 : Light (< 15500 lbs)"@ =~= seq!['A', '1', ' ', ':', ' ', 'L', 'i', 'g', 'h', 't', ' ', '(', '<', ' ', '1', '5', '5', '0', '0', ' ', 'l', 'b', 's', ')']);
    reveal_strlit("A2 : Small (15500 to 75000 lbs)");
    assert("A2 : Small (15500 to 75000 lbs)"@ =~= seq!['A', '2', ' ', ':', ' ', 'S', 'm', 'a', 'l', 'l', ' ', '(', '1', '5', '5', '0', '0', ' ', 't', 'o', ' ', '7', '5', '0', '0', '0', ' ', 'l', 'b', 's', ')']);
    reveal_strlit("A3 : Large (75000 to 300000 lbs)");
    assert("A3 : Large (75000 to 300000 lbs)"@ =~= seq!['A', '3', ' ', ':', ' ', 'L', 'a', 'r', 'g', 'e', ' ', '(', '7', '5', '0', '0', '0', ' ', 't', 'o', ' ', '3', '0', '0', '0', '0', '0', ' ', 'l', 'b', 's', ')']);
    reveal_strlit("A4 : High vortex large");
    assert("A4 : High vortex large"@ =~= seq!['A', '4', ' ', ':', ' ', 'H', 'i', 'g', 'h', ' ', 'v', 'o', 'r', 't', 'e', 'x', ' ', 'l', 'a', 'r', 'g', 'e']);
    reveal_strlit("A5 : Heavy (> 300000 lbs) ");
    assert("A5 : Heavy (> 300000 lbs) "@ =~= seq!['A', '5', ' ', ':', ' ', 'H', 'e', 'a', 'v', 'y', ' ', '(', '>', ' ', '3', '0', '0', '0', '0', '0', ' ', 'l', 'b', 's', ')', ' ']);
    reveal_strlit("A6 : High performance");
    assert("A6 : High performance"@ =~= seq!['A', '6', ' ', ':', ' ', 'H', 'i', 'g', 'h', ' ', 'p', 'e', 'r', 'f', 'o', 'r', 'm', 'a', 'n', 'c', 'e']);
    reveal_strlit("A7 : Rotorcraft");
    assert("A7 : Rotorcraft"@ =~= seq!['A', '7', ' ', ':', ' ', 'R', 'o', 't', 'o', 'r', 'c', 'r', 'a', 'f', 't']);
    reveal_strlit("B0 : No ADS-B information");
    assert("B0 : No ADS-B information"@ =~= seq!['B', '0', ' ', ':', ' ', 'N', 'o', ' ', 'A', 'D', 'S', '-', 'B', ' ', 'i', 'n', 'f', 'o', 'r', 'm', 'a', 't', 'i', 'o', 'n']);
    reveal_strlit("B1 : Glider / sailplane");
    assert("B1 : Glider / sailplane"@ =~= seq!['B', '1', ' ', ':', ' ', 'G', 'l', 'i', 'd', 'e', 'r', ' ', '/', ' ', 's', 'a', 'i', 'l', 'p', 'l', 'a', 'n', 'e']);
    reveal_strlit("B2 : Lighter-than-air");
    assert("B2 : Lighter-than-air"@ =~= seq!['B', '2', ' ', ':', ' ', 'L', 'i', 'g', 'h', 't', 'e', 'r', '-', 't', 'h', 'a', 'n', '-', 'a', 'i', 'r']);
    reveal_strlit("B3 : Parachutist / skydiver");
    assert("B3 : Parachutist / skydiver"@ =~= seq!['B', '3', ' ', ':', ' ', 'P', 'a', 'r', 'a', 'c', 'h', 'u', 't', 'i', 's', 't', ' ', '/', ' ', 's', 'k', 'y', 'd', 'i', 'v', 'e', 'r']);
    reveal_strlit("B4 : Ultralight / hang-glider / paraglider");
    assert("B4 : Ultralight / hang-glider / paraglider"@ =~= seq!['B', '4', ' ', ':', ' ', 'U', 'l', 't', 'r', 'a', 'l', 'i', 'g', 'h', 't', ' ', '/', ' ', 'h', 'a', 'n', 'g', '-', 'g', 'l', 'i', 'd', 'e', 'r', ' ', '/', ' ', 'p', 'a', 'r', 'a', 'g', 'l', 'i', 'd', 'e', 'r']);
    reveal_strlit("B5 : Reserved");
    assert("B5 : Reserved"@ =~= seq!['B', '5', ' ', ':', ' ', 'R', 'e', 's', 'e', 'r', 'v', 'e', 'd']);
    reveal_strlit("B6 : Unmanned Aerial Vehicle");
    assert("B6 : Unmanned Aerial Vehicle"@ =~= seq!['B', '6', ' ', ':', ' ', 'U', 'n', 'm', 'a', 'n', 'n', 'e', 'd', ' ', 'A', 'e', 'r', 'i', 'a', 'l', ' ', 'V', 'e', 'h', 'i', 'c', 'l', 'e']);
    reveal_strlit("B7 : Space / trans-atmospheric vehicle");
    assert("B7 : Space / trans-atmospheric vehicle"@ =~= seq!['B', '7', ' ', ':', ' ', 'S', 'p', 'a', 'c', 'e', ' ', '/', ' ', 't', 'r', 'a', 'n', 's', '-', 'a', 't', 'm', 'o', 's', 'p', 'h', 'e', 'r', 'i', 'c', ' ', 'v', 'e', 'h', 'i', 'c', 'l', 'e']);
    reveal_strlit("C0 : No ADS-B information");
    assert("C0 : No ADS-B information"@ =~= seq!['C', '0', ' ', ':', ' ', 'N', 'o', ' ', 'A', 'D', 'S', '-', 'B', ' ', 'i', 'n', 'f', 'o', 'r', 'm', 'a', 't', 'i', 'o', 'n']);
    reveal_strlit("C1 : Surface vehicle - emergency vehicle");
    assert("C1 : Surface vehicle - emergency vehicle"@ =~= seq!['C', '1', ' ', ':', ' ', 'S', 'u', 'r', 'f', 'a', 'c', 'e', ' ', 'v', 'e', 'h', 'i', 'c', 'l', 'e', ' ', '-', ' ', 'e', 'm', 'e', 'r', 'g', 'e', 'n', 'c', 'y', ' ', 'v', 'e', 'h', 'i', 'c', 'l', 'e']);
    reveal_strlit("C2 : Surface vehicle - service vehicle");
    assert("C2 : Surface vehicle - service vehicle"@ =~= seq!['C', '2', ' ', ':', ' ', 'S', 'u', 'r', 'f', 'a', 'c', 'e', ' ', 'v', 'e', 'h', 'i', 'c', 'l', 'e', ' ', '-', ' ', 's', 'e', 'r', 'v', 'i', 'c', 'e', ' ', 'v', 'e', 'h', 'i', 'c', 'l', 'e']);
    reveal_strlit("C3 : Point obstacle (includes tethered balloons)");
    assert("C3 : Point obstacle (includes tethered balloons)"@ =~= seq!['C', '3', ' ', ':', ' ', 'P', 'o', 'i', 'n', 't', ' ', 'o', 'b', 's', 't', 'a', 'c', 'l', 'e', ' ', '(', 'i', 'n', 'c', 'l', 'u', 'd', 'e', 's', ' ', 't', 'e', 't', 'h', 'e', 'r', 'e', 'd', ' ', 'b', 'a', 'l', 'l', 'o', 'o', 'n', 's', ')']);
    reveal_strlit("C4 : Cluster obstacle");
    assert("C4 : Cluster obstacle"@ =~= seq!['C', '4', ' ', ':', ' ', 'C', 'l', 'u', 's', 't', 'e', 'r', ' ', 'o', 'b', 's', 't', 'a', 'c', 'l', 'e']);
    reveal_strlit("C5 : Line obstacle");
    assert("C5 : Line obstacle"@ =~= seq!['C', '5', ' ', ':', ' ', 'L', 'i', 'n', 'e', ' ', 'o', 'b', 's', 't', 'a', 'c', 'l', 'e']);
    reveal_strlit("C6: Reserved");
    assert("C6: Reserved"@ =~= seq!['C', '6', ':', ' ', 'R', 'e', 's', 'e', 'r', 'v', 'e', 'd']);
    reveal_strlit("C7: Reserved");
    assert("C7: Reserved"@ =~= seq!['C', '7', ':', ' ', 'R', 'e', 's', 'e', 'r', 'v', 'e', 'd']);
    reveal_strlit("D0 : Reserved/No ADS-B information");
    assert("D0 : Reserved/No ADS-B information"@ =~= seq!['D', '0', ' ', ':', ' ', 'R', 'e', 's', 'e', 'r', 'v', 'e', 'd', '/', 'N', 'o', ' ', 'A', 'D', 'S', '-', 'B', ' ', 'i', 'n', 'f', 'o', 'r', 'm', 'a', 't', 'i', 'o', 'n']);
    reveal_strlit("D1 : Reserved");
    assert("D1 : Reserved"@ =~= seq!['D', '1', ' ', ':', ' ', 'R', 'e', 's', 'e', 'r', 'v', 'e', 'd']);
    reveal_strlit("D2 : Reserved");
    assert("D2 : Reserved"@ =~= seq!['D', '2', ' ', ':', ' ', 'R', 'e', 's', 'e', 'r', 'v', 'e', 'd']);
    reveal_strlit("D3 : Reserved");
    assert("D3 : Reserved"@ =~= seq!['D', '3', ' ', ':', ' ', 'R', 'e', 's', 'e', 'r', 'v', 'e', 'd']);
    reveal_strlit("D4 : Reserved");
    assert("D4 : Reserved"@ =~= seq!['D', '4', ' ', ':', ' ', 'R', 'e', 's', 'e', 'r', 'v', 'e', 'd']);
    reveal_strlit("D5 : Reserved");
    assert("D5 : Reserved"@ =~= seq!['D', '5', ' ', ':', ' ', 'R', 'e', 's', 'e', 'r', 'v', 'e', 'd']);
    reveal_strlit("D6 : Reserved");
    assert("D6 : Reserved"@ =~= seq!['D', '6', ' ', ':', ' ', 'R', 'e', 's', 'e', 'r', 'v', 'e', 'd']);
    reveal_strlit("D7 : Reserved");
    assert("D7 : Reserved"@ =~= seq!['D', '7', ' ', ':', ' ', 'R', 'e', 's', 'e', 'r', 'v', 'e', 'd']);
    if let Some(c) = EmitterCategory::from_type_coding(tc, ca) {
        assert(c.display_text().subrange(0, 2) =~= seq![tc.letter(), digit_char(ca as nat)]);
    }
    assert(value.wire_text() =~= value.display_text().subrange(0, 2));
}

/// Serializing a category and reading the text back gives the category.
pub proof fn lemma_emitter_category_round_trip(value: EmitterCategory)
    ensures
        EmitterCategory::from_wire_text(value.wire_text()) == Some(value),
{
    lemma_wire_text_spelling();
}

/// A text read as a category is the text that category serializes as.
pub proof fn lemma_emitter_category_text_round_trip(text: Seq<char>)
    ensures
        EmitterCategory::from_wire_text(text) matches Some(value) ==> value.wire_text() == text,
{
}

/// The serialized text of the category selected by a type coding set and a
/// category number is the set's letter followed by the number.
pub proof fn lemma_emitter_category_code(tc: TypeCoding, ca: u8)
    ensures
        EmitterCategory::from_type_coding(tc, ca) matches Some(category) ==> category.wire_text()
            == seq![tc.letter(), digit_char(ca as nat)],
{
    lemma_wire_text_spelling();
}

fn invalid_category_message(letter: char, ca: u8) -> (res: String)
    ensures
        res@ == "Invalid emitter category: "@ + seq![letter] + decimal_digits(ca as nat),
{
    let mut message = String::from_str("Invalid emitter category: ");
    push_char(&mut message, letter);
    push_decimal(&mut message, ca as u64);
    message
}

} // verus!
