//! Navigation integrity category (`nic` and `nac_p` in aircraft.json).

use vstd::prelude::*;
use vstd::string::*;

use crate::decoders::helpers::strings::{decimal_digits, push_decimal, starts_with};

verus! {

#[derive(Debug, Clone, Copy, PartialEq, Eq, Structural, PartialOrd)]
pub enum NavigationIntegrityCategory {
    Category11,
    Category10,
    Category9,
    Category8,
    Category7,
    Category6,
    Category5,
    Category4,
    Category3,
    Category2,
    Category1,
    Unknown,
}

impl Default for NavigationIntegrityCategory {
    fn default() -> (res: Self)
        ensures
            res == NavigationIntegrityCategory::Unknown,
    {
        NavigationIntegrityCategory::Unknown
    }
}

impl NavigationIntegrityCategory {
    /// The category a number stands for, if any.
    pub open spec fn from_wire_value(value: u8) -> Option<NavigationIntegrityCategory> {
        if value == 11 {
            Some(NavigationIntegrityCategory::Category11)
        } else if value == 10 {
            Some(NavigationIntegrityCategory::Category10)
        } else if value == 9 {
            Some(NavigationIntegrityCategory::Category9)
        } else if value == 8 {
            Some(NavigationIntegrityCategory::Category8)
        } else if value == 7 {
            Some(NavigationIntegrityCategory::Category7)
        } else if value == 6 {
            Some(NavigationIntegrityCategory::Category6)
        } else if value == 5 {
            Some(NavigationIntegrityCategory::Category5)
        } else if value == 4 {
            Some(NavigationIntegrityCategory::Category4)
        } else if value == 3 {
            Some(NavigationIntegrityCategory::Category3)
        } else if value == 2 {
            Some(NavigationIntegrityCategory::Category2)
        } else if value == 1 {
            Some(NavigationIntegrityCategory::Category1)
        } else if value == 0 {
            Some(NavigationIntegrityCategory::Unknown)
        } else {
            None
        }
    }

    /// The human readable text of a category.
    pub open spec fn display_text(self) -> Seq<char> {
        match self {
            NavigationIntegrityCategory::Category11 => "Category 11 (< 3m)"@,
            NavigationIntegrityCategory::Category10 => "Category 10 (< 10m)"@,
            NavigationIntegrityCategory::Category9 => "Category 9 (< 30m)"@,
            NavigationIntegrityCategory::Category8 => "Category 8 (< 0.05 NM (93 m)"@,
            NavigationIntegrityCategory::Category7 => "Category 7 (< 0.1 NM (185 m)"@,
            NavigationIntegrityCategory::Category6 => "Category 6 (< 0.3 NM (556 m)"@,
            NavigationIntegrityCategory::Category5 => "Category 5 (< 0.5 NM (926 m)"@,
            NavigationIntegrityCategory::Category4 => "Category 4 (< 1 NM (1852 m)"@,
            NavigationIntegrityCategory::Category3 => "Category 3 (< 2 NM (3704 m)"@,
            NavigationIntegrityCategory::Category2 => "Category 2 (< 4 NM (7408 m)"@,
            NavigationIntegrityCategory::Category1 => "Category 1 (<10 NM (18520 m)"@,
            NavigationIntegrityCategory::Unknown => ">10 NM or Unknown "@,
        }
    }

    /// The human readable text of this category.
    pub fn to_string(&self) -> (res: String)
        ensures
            res@ == self.display_text(),
    {
        match self {
            NavigationIntegrityCategory::Category11 => String::from_str("Category 11 (< 3m)"),
            NavigationIntegrityCategory::Category10 => String::from_str("Category 10 (< 10m)"),
            NavigationIntegrityCategory::Category9 => String::from_str("Category 9 (< 30m)"),
            NavigationIntegrityCategory::Category8 => String::from_str("Category 8 (< 0.05 NM (93 m)"),
            NavigationIntegrityCategory::Category7 => String::from_str("Category 7 (< 0.1 NM (185 m)"),
            NavigationIntegrityCategory::Category6 => String::from_str("Category 6 (< 0.3 NM (556 m)"),
            NavigationIntegrityCategory::Category5 => String::from_str("Category 5 (< 0.5 NM (926 m)"),
            NavigationIntegrityCategory::Category4 => String::from_str("Category 4 (< 1 NM (1852 m)"),
            NavigationIntegrityCategory::Category3 => String::from_str("Category 3 (< 2 NM (3704 m)"),
            NavigationIntegrityCategory::Category2 => String::from_str("Category 2 (< 4 NM (7408 m)"),
            NavigationIntegrityCategory::Category1 => String::from_str("Category 1 (<10 NM (18520 m)"),
            NavigationIntegrityCategory::Unknown => String::from_str(">10 NM or Unknown "),
        }
    }
}

impl TryFrom<u8> for NavigationIntegrityCategory {
    type Error = String;

    fn try_from(nic: u8) -> (res: Result<Self, Self::Error>)
        ensures
            match NavigationIntegrityCategory::from_wire_value(nic) {
                Some(value) => res == Ok::<NavigationIntegrityCategory, String>(value),
                None => res matches Err(message) && message@ == "NIC should be a value between 0 and 11, inclusive. Found "@ + decimal_digits(nic as nat),
            },
    {
        match nic {
            11 => Ok(NavigationIntegrityCategory::Category11),
            10 => Ok(NavigationIntegrityCategory::Category10),
            9 => Ok(NavigationIntegrityCategory::Category9),
            8 => Ok(NavigationIntegrityCategory::Category8),
            7 => Ok(NavigationIntegrityCategory::Category7),
            6 => Ok(NavigationIntegrityCategory::Category6),
            5 => Ok(NavigationIntegrityCategory::Category5),
            4 => Ok(NavigationIntegrityCategory::Category4),
            3 => Ok(NavigationIntegrityCategory::Category3),
            2 => Ok(NavigationIntegrityCategory::Category2),
            1 => Ok(NavigationIntegrityCategory::Category1),
            0 => Ok(NavigationIntegrityCategory::Unknown),
            _ => {
                let mut message = String::from_str("NIC should be a value between 0 and 11, inclusive. Found ");
                push_decimal(&mut message, nic as u64);
                Err(message)
            },
        }
    }
}

impl vstd::std_specs::convert::TryFromSpecImpl<u8> for NavigationIntegrityCategory {
    /// The error for a refused a number is a message, which no spec value can
    /// carry; `try_from` states its exact result itself.
    open spec fn obeys_try_from_spec() -> bool {
        false
    }

    open spec fn try_from_spec(value: u8) -> Result<Self, String> {
        arbitrary()
    }
}

/// A NIC number names its category: reading 1 to 11 gives the category whose
/// text reads `Category <n> `, 0 gives the unknown one (`>10 NM or Unknown`),
/// and any larger number is refused.
pub proof fn lemma_nic_number_named(n: u8)
    ensures
        1 <= n <= 11 ==> (NavigationIntegrityCategory::from_wire_value(n) matches Some(c) && starts_with(
            c.display_text(),
            "Category "@ + decimal_digits(n as nat) + seq![' '],
        )),
        n == 0 ==> (NavigationIntegrityCategory::from_wire_value(n) matches Some(c) && c.display_text()
            == ">10 NM or Unknown "@),
        n > 11 ==> NavigationIntegrityCategory::from_wire_value(n) is None,
{
    reveal_strlit("Category 11 (< 3m)");
    assert("Category 11 (< 3m)"@ =~= seq!['C', 'a', 't', 'e', 'g', 'o', 'r', 'y', ' ', '1', '1', ' ', '(', '<', ' ', '3', 'm', ')']);
    reveal_strlit("Category 10 (< 10m)");
    assert("Category 10 (< 10m)"@ =~= seq!['C', 'a', 't', 'e', 'g', 'o', 'r', 'y', ' ', '1', '0', ' ', '(', '<', ' ', '1', '0', 'm', ')']);
    reveal_strlit("Category 9 (< 30m)");
    assert("Category 9 (< 30m)"@ =~= seq!['C', 'a', 't', 'e', 'g', 'o', 'r', 'y', ' ', '9', ' ', '(', '<', ' ', '3', '0', 'm', ')']);
    reveal_strlit("Category 8 (< 0.05 NM (93 m)");
    assert("Category 8 (< 0.05 NM (93 m)"@ =~= seq!['C', 'a', 't', 'e', 'g', 'o', 'r', 'y', ' ', '8', ' ', '(', '<', ' ', '0', '.', '0', '5', ' ', 'N', 'M', ' ', '(', '9', '3', ' ', 'm', ')']);
    reveal_strlit("Category 7 (< 0.1 NM (185 m)");
    assert("Category 7 (< 0.1 NM (185 m)"@ =~= seq!['C', 'a', 't', 'e', 'g', 'o', 'r', 'y', ' ', '7', ' ', '(', '<', ' ', '0', '.', '1', ' ', 'N', 'M', ' ', '(', '1', '8', '5', ' ', 'm', ')']);
    reveal_strlit("Category 6 (< 0.3 NM (556 m)");
    assert("Category 6 (< 0.3 NM (556 m)"@ =~= seq!['C', 'a', 't', 'e', 'g', 'o', 'r', 'y', ' ', '6', ' ', '(', '<', ' ', '0', '.', '3', ' ', 'N', 'M', ' ', '(', '5', '5', '6', ' ', 'm', ')']);
    reveal_strlit("Category 5 (< 0.5 NM (926 m)");
    assert("Category 5 (< 0.5 NM (926 m)"@ =~= seq!['C', 'a', 't', 'e', 'g', 'o', 'r', 'y', ' ', '5', ' ', '(', '<', ' ', '0', '.', '5', ' ', 'N', 'M', ' ', '(', '9', '2', '6', ' ', 'm', ')']);
    reveal_strlit("Category 4 (< 1 NM (1852 m)");
    assert("Category 4 (< 1 NM (1852 m)"@ =~= seq!['C', 'a', 't', 'e', 'g', 'o', 'r', 'y', ' ', '4', ' ', '(', '<', ' ', '1', ' ', 'N', 'M', ' ', '(', '1', '8', '5', '2', ' ', 'm', ')']);
    reveal_strlit("Category 3 (< 2 NM (3704 m)");
    assert("Category 3 (< 2 NM (3704 m)"@ =~= seq!['C', 'a', 't', 'e', 'g', 'o', 'r', 'y', ' ', '3', ' ', '(', '<', ' ', '2', ' ', 'N', 'M', ' ', '(', '3', '7', '0', '4', ' ', 'm', ')']);
    reveal_strlit("Category 2 (< 4 NM (7408 m)");
    assert("Category 2 (< 4 NM (7408 m)"@ =~= seq!['C', 'a', 't', 'e', 'g', 'o', 'r', 'y', ' ', '2', ' ', '(', '<', ' ', '4', ' ', 'N', 'M', ' ', '(', '7', '4', '0', '8', ' ', 'm', ')']);
    reveal_strlit("Category 1 (<10 NM (18520 m)");
    assert("Category 1 (<10 NM (18520 m)"@ =~= seq!['C', 'a', 't', 'e', 'g', 'o', 'r', 'y', ' ', '1', ' ', '(', '<', '1', '0', ' ', 'N', 'M', ' ', '(', '1', '8', '5', '2', '0', ' ', 'm', ')']);
    reveal_strlit(">10 NM or Unknown ");
    assert(">10 NM or Unknown "@ =~= seq!['>', '1', '0', ' ', 'N', 'M', ' ', 'o', 'r', ' ', 'U', 'n', 'k', 'n', 'o', 'w', 'n', ' ']);
    reveal_strlit("Category ");
    assert("Category "@ =~= seq!['C', 'a', 't', 'e', 'g', 'o', 'r', 'y', ' ']);
    assert(decimal_digits(1) =~= seq!['1']);
    assert(decimal_digits(10) =~= decimal_digits(1).push('0'));
    assert(decimal_digits(10) =~= seq!['1', '0']);
    assert(decimal_digits(11) =~= decimal_digits(1).push('1'));
    assert(decimal_digits(11) =~= seq!['1', '1']);
    if 1 <= n <= 11 {
        let c = NavigationIntegrityCategory::from_wire_value(n).unwrap();
        assert(c.display_text().subrange(0, ("Category "@ + decimal_digits(n as nat) + seq![' ']).len() as int)
            =~= "Category "@ + decimal_digits(n as nat) + seq![' ']);
    }
}

} // verus!
