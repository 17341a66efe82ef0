//! Navigation accuracy for velocity (`nac_v` in aircraft.json).

use vstd::prelude::*;
use vstd::string::*;

use crate::decoders::helpers::strings::{decimal_digits, push_decimal, starts_with};

verus! {

#[derive(Debug, Clone, Copy, PartialEq, Eq, Structural, PartialOrd)]
pub enum NavigationAccuracyVelocity {
    Category0,
    Category1,
    Category2,
    Category3,
    Category4,
}

impl Default for NavigationAccuracyVelocity {
    fn default() -> (res: Self)
        ensures
            res == NavigationAccuracyVelocity::Category0,
    {
        NavigationAccuracyVelocity::Category0
    }
}

impl NavigationAccuracyVelocity {
    /// The number a category is serialized as.
    pub open spec fn wire_value(self) -> u8 {
        match self {
            NavigationAccuracyVelocity::Category0 => 0,
            NavigationAccuracyVelocity::Category1 => 1,
            NavigationAccuracyVelocity::Category2 => 2,
            NavigationAccuracyVelocity::Category3 => 3,
            NavigationAccuracyVelocity::Category4 => 4,
        }
    }

    /// The category a number stands for, if any.
    pub open spec fn from_wire_value(value: u8) -> Option<NavigationAccuracyVelocity> {
        if value == 0 {
            Some(NavigationAccuracyVelocity::Category0)
        } else if value == 1 {
            Some(NavigationAccuracyVelocity::Category1)
        } else if value == 2 {
            Some(NavigationAccuracyVelocity::Category2)
        } else if value == 3 {
            Some(NavigationAccuracyVelocity::Category3)
        } else if value == 4 {
            Some(NavigationAccuracyVelocity::Category4)
        } else {
            None
        }
    }

    /// The human readable text of a category.
    pub open spec fn display_text(self) -> Seq<char> {
        match self {
            NavigationAccuracyVelocity::Category0 => "Category 0 or unknown"@,
            NavigationAccuracyVelocity::Category1 => "Category 1: < 10 m/s"@,
            NavigationAccuracyVelocity::Category2 => "Category 2: < 3 m/s"@,
            NavigationAccuracyVelocity::Category3 => "Category 3: < 1 m/s"@,
            NavigationAccuracyVelocity::Category4 => "Category 4: < 0.3 m/s"@,
        }
    }

    /// The number this category is serialized as.
    pub fn serialize(&self) -> (res: u8)
        ensures
            res == self.wire_value(),
    {
        match self {
            NavigationAccuracyVelocity::Category0 => 0,
            NavigationAccuracyVelocity::Category1 => 1,
            NavigationAccuracyVelocity::Category2 => 2,
            NavigationAccuracyVelocity::Category3 => 3,
            NavigationAccuracyVelocity::Category4 => 4,
        }
    }

    /// The human readable text of this category.
    pub fn to_string(&self) -> (res: String)
        ensures
            res@ == self.display_text(),
    {
        match self {
            NavigationAccuracyVelocity::Category0 => String::from_str("Category 0 or unknown"),
            NavigationAccuracyVelocity::Category1 => String::from_str("Category 1: < 10 m/s"),
            NavigationAccuracyVelocity::Category2 => String::from_str("Category 2: < 3 m/s"),
            NavigationAccuracyVelocity::Category3 => String::from_str("Category 3: < 1 m/s"),
            NavigationAccuracyVelocity::Category4 => String::from_str("Category 4: < 0.3 m/s"),
        }
    }
}

impl TryFrom<u8> for NavigationAccuracyVelocity {
    type Error = String;

    fn try_from(nacv: u8) -> (res: Result<Self, Self::Error>)
        ensures
            match NavigationAccuracyVelocity::from_wire_value(nacv) {
                Some(value) => res == Ok::<NavigationAccuracyVelocity, String>(value),
                None => res matches Err(message) && message@ == "NACv should be a value between 0 and 4, inclusive. Found "@ + decimal_digits(nacv as nat),
            },
    {
        match nacv {
            0 => Ok(NavigationAccuracyVelocity::Category0),
            1 => Ok(NavigationAccuracyVelocity::Category1),
            2 => Ok(NavigationAccuracyVelocity::Category2),
            3 => Ok(NavigationAccuracyVelocity::Category3),
            4 => Ok(NavigationAccuracyVelocity::Category4),
            _ => {
                let mut message = String::from_str("NACv should be a value between 0 and 4, inclusive. Found ");
                push_decimal(&mut message, nacv as u64);
                Err(message)
            },
        }
    }
}

impl vstd::std_specs::convert::TryFromSpecImpl<u8> for NavigationAccuracyVelocity {
    /// The error for a refused a number is a message, which no spec value can
    /// carry; `try_from` states its exact result itself.
    open spec fn obeys_try_from_spec() -> bool {
        false
    }

    open spec fn try_from_spec(value: u8) -> Result<Self, String> {
        arbitrary()
    }
}

/// Serializing a category and reading the number back gives the category.
pub proof fn lemma_nacv_round_trip(value: NavigationAccuracyVelocity)
    ensures
        NavigationAccuracyVelocity::from_wire_value(value.wire_value()) == Some(value),
{
}

/// A number read as a category is the number that category serializes as.
pub proof fn lemma_nacv_number_round_trip(number: u8)
    ensures
        NavigationAccuracyVelocity::from_wire_value(number) matches Some(value) ==> value.wire_value() == number,
{
}

/// A NACv number names its category: reading 0 to 4 gives the category whose
/// text starts `Category <n>`, and any larger number is refused.
pub proof fn lemma_nacv_number_named(n: u8)
    ensures
        n <= 4 ==> (NavigationAccuracyVelocity::from_wire_value(n) matches Some(c) && starts_with(
            c.display_text(),
            "Category "@ + decimal_digits(n as nat),
        )),
        n > 4 ==> NavigationAccuracyVelocity::from_wire_value(n) is None,
{
    reveal_strlit("Category 0 or unknown");
    assert("Category 0 or unknown"@ =~= seq!['C', 'a', 't', 'e', 'g', 'o', 'r', 'y', ' ', '0', ' ', 'o', 'r', ' ', 'u', 'n', 'k', 'n', 'o', 'w', 'n']);
    reveal_strlit("Category 1: < 10 m/s");
    assert("Category 1: < 10 m/s"@ =~= seq!['C', 'a', 't', 'e', 'g', 'o', 'r', 'y', ' ', '1', ':', ' ', '<', ' ', '1', '0', ' ', 'm', '/', 's']);
    reveal_strlit("Category 2: < 3 m/s");
    assert("Category 2: < 3 m/s"@ =~= seq!['C', 'a', 't', 'e', 'g', 'o', 'r', 'y', ' ', '2', ':', ' ', '<', ' ', '3', ' ', 'm', '/', 's']);
    reveal_strlit("Category 3: < 1 m/s");
    assert("Category 3: < 1 m/s"@ =~= seq!['C', 'a', 't', 'e', 'g', 'o', 'r', 'y', ' ', '3', ':', ' ', '<', ' ', '1', ' ', 'm', '/', 's']);
    reveal_strlit("Category 4: < 0.3 m/s");
    assert("Category 4: < 0.3 m/s"@ =~= seq!['C', 'a', 't', 'e', 'g', 'o', 'r', 'y', ' ', '4', ':', ' ', '<', ' ', '0', '.', '3', ' ', 'm', '/', 's']);
    reveal_strlit("Category ");
    assert("Category "@ =~= seq!['C', 'a', 't', 'e', 'g', 'o', 'r', 'y', ' ']);
    if n <= 4 {
        let c = NavigationAccuracyVelocity::from_wire_value(n).unwrap();
        assert(c.display_text().subrange(0, ("Category "@ + decimal_digits(n as nat)).len() as int)
            =~= "Category "@ + decimal_digits(n as nat));
    }
}

} // verus!
